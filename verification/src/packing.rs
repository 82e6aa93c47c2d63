//! Signals of packed or protected binaries.
use vstd::prelude::*;
use vstd::string::StringSliceAdditionalSpecFns;

use crate::elf_info::{ElfInfo, SectionInfo};
use crate::metadata::SHF_ALLOC;
use crate::text::{contains_bytes, str_eq};

verus! {

/// Section names that compilers and linkers produce on their own.
pub const STANDARD_SECTION_NAMES: [&'static str; 36] = [
    ".text",
    ".data",
    ".bss",
    ".rodata",
    ".init",
    ".fini",
    ".plt",
    ".got",
    ".got.plt",
    ".dynamic",
    ".dynsym",
    ".dynstr",
    ".symtab",
    ".strtab",
    ".shstrtab",
    ".interp",
    ".hash",
    ".gnu.hash",
    ".comment",
    ".note",
    ".eh_frame",
    ".eh_frame_hdr",
    ".init_array",
    ".fini_array",
    ".rela.dyn",
    ".rela.plt",
    ".tbss",
    ".tdata",
    ".gnu.version",
    ".gnu.version_r",
    ".gnu.version_d",
    ".ctors",
    ".dtors",
    ".jcr",
    ".rodata1",
    ".data1",
];

/// Text signatures of common packers and protectors, searched in the raw bytes.
pub const KNOWN_PACKER_SIGNATURES: [&'static str; 9] = [
    "UPX!",
    ".upx0",
    ".upx1",
    ".upx2",
    "$Info: This file is packed",
    "ASPack",
    "PECompact",
    "FSG!",
    "MPRESS",
];

/// Packing signals of an ELF file.
#[derive(Debug)]
pub struct PackingFeature {
    /// Sum of the sizes of the allocated (`SHF_ALLOC`) sections. The file to
    /// section size ratio is the file size divided by it, 0 when it is 0.
    pub allocated_section_size: u128,
    /// The section header table declared in the ELF header does not fit in
    /// the file, or no section is declared.
    pub section_table_inconsistent: bool,
    /// The entry point lies in a loaded section that is neither `.text` nor
    /// the last section by address: the mark of an injected unpacking stub.
    pub entry_point_outside_text: bool,
    /// Sections with a non-empty name outside `STANDARD_SECTION_NAMES`.
    pub nonstandard_section_name_count: usize,
    /// One of `KNOWN_PACKER_SIGNATURES` occurs in the raw bytes.
    pub known_packer_signature_found: bool,
}

/// Sum of the sizes of the allocated sections among `secs`.
pub open spec fn allocated_size(secs: Seq<SectionInfo>) -> int
    decreases secs.len(),
{
    if secs.len() == 0 {
        0
    } else {
        allocated_size(secs.drop_last()) + if secs.last().sh_flags & SHF_ALLOC != 0 {
            secs.last().sh_size as int
        } else {
            0
        }
    }
}

/// The declared section header table is missing or runs past the end of a file of `len` bytes.
pub open spec fn table_inconsistent(shoff: u64, shnum: u16, shentsize: u16, len: int) -> bool {
    shnum == 0 || shoff.saturating_add((shnum * shentsize) as u64) > len
}

/// The section has exactly the name `name`.
pub open spec fn has_name(s: SectionInfo, name: Seq<char>) -> bool {
    s.name matches Some(n) && n@ == name
}

/// Index of the first section named `name`.
pub open spec fn first_named(secs: Seq<SectionInfo>, name: Seq<char>) -> Option<int>
    decreases secs.len(),
{
    if secs.len() == 0 {
        None
    } else if has_name(secs[0], name) {
        Some(0)
    } else {
        match first_named(secs.drop_first(), name) {
            Some(i) => Some(i + 1),
            None => None,
        }
    }
}

/// The address range of section `s` holds `entry`.
pub open spec fn addr_range_holds(s: SectionInfo, entry: u64) -> bool {
    s.sh_addr <= entry && entry < s.sh_addr.saturating_add(s.sh_size)
}

/// Some section of `secs` starts at a higher address than section `i`: `i` is
/// not the last section by address.
pub open spec fn below_last_by_address(secs: Seq<SectionInfo>, i: int) -> bool {
    exists|j: int| 0 <= j < secs.len() && #[trigger] secs[j].sh_addr > secs[i].sh_addr
}

/// Section `i` is loaded (`SHF_ALLOC`), holds `entry`, is not `.text` and
/// is not the last section by address.
pub open spec fn entry_in_stub_section(secs: Seq<SectionInfo>, i: int, entry: u64) -> bool {
    &&& secs[i].sh_flags & SHF_ALLOC != 0
    &&& addr_range_holds(secs[i], entry)
    &&& !has_name(secs[i], ".text"@)
    &&& below_last_by_address(secs, i)
}

/// The entry point lies in a loaded section other than `.text` and other
/// than the last section by address.
pub open spec fn entry_outside_text(secs: Seq<SectionInfo>, entry: u64) -> bool {
    exists|i: int| 0 <= i < secs.len() && #[trigger] entry_in_stub_section(secs, i, entry)
}

/// `name` is one of `STANDARD_SECTION_NAMES`.
pub open spec fn is_standard_name(name: Seq<char>) -> bool {
    exists|k: int| 0 <= k < 36 && #[trigger] STANDARD_SECTION_NAMES@[k]@ == name
}

/// The section has a non-empty name outside the standard ones.
pub open spec fn nonstandard_named(s: SectionInfo) -> bool {
    s.name matches Some(n) && n@.len() > 0 && !is_standard_name(n@)
}

/// Number of sections with a non-standard non-empty name.
pub open spec fn nonstandard_count(secs: Seq<SectionInfo>) -> nat
    decreases secs.len(),
{
    if secs.len() == 0 {
        0
    } else {
        nonstandard_count(secs.drop_last()) + if nonstandard_named(secs.last()) {
            1nat
        } else {
            0nat
        }
    }
}

/// One of the packer signatures occurs in `data`.
pub open spec fn has_packer_signature(data: Seq<u8>) -> bool {
    exists|k: int| 0 <= k < 9 && crate::text::contains_sub(data, #[trigger] KNOWN_PACKER_SIGNATURES@[k].spec_bytes())
}

proof fn lemma_allocated_size_bound(secs: Seq<SectionInfo>)
    ensures
        0 <= allocated_size(secs) <= secs.len() * 0xffff_ffff_ffff_ffff,
    decreases secs.len(),
{
    if secs.len() > 0 {
        lemma_allocated_size_bound(secs.drop_last());
        assert(secs.drop_last().len() * 0xffff_ffff_ffff_ffff + 0xffff_ffff_ffff_ffff == secs.len() * 0xffff_ffff_ffff_ffff) by (nonlinear_arith)
            requires
                secs.drop_last().len() + 1 == secs.len(),
        ;
    }
}

/// `r` holds the packing signals of the file `data`, parsed as `elf`.
pub open spec fn is_packing_of(r: &PackingFeature, data: Seq<u8>, elf: &ElfInfo) -> bool {
    &&& r.allocated_section_size == allocated_size(elf.sections@)
    &&& r.section_table_inconsistent == table_inconsistent(elf.header.e_shoff, elf.header.e_shnum, elf.header.e_shentsize, data.len() as int)
    &&& r.entry_point_outside_text == entry_outside_text(elf.sections@, elf.header.e_entry)
    &&& r.nonstandard_section_name_count == nonstandard_count(elf.sections@)
    &&& r.known_packer_signature_found == has_packer_signature(data)
}

impl PackingFeature {
    /// Packing signals of the file `raw_data`, parsed as `elf`.
    pub fn extract(raw_data: &[u8], elf: &ElfInfo) -> (r: Self)
        ensures
            is_packing_of(&r, raw_data@, elf),
    {
        PackingFeature {
            allocated_section_size: Self::allocated_size(elf),
            section_table_inconsistent: Self::check_section_table_consistency(raw_data, elf),
            entry_point_outside_text: Self::check_entry_point_outside_text(elf),
            nonstandard_section_name_count: Self::count_nonstandard_names(elf),
            known_packer_signature_found: Self::scan_known_signatures(raw_data),
        }
    }

    fn allocated_size(elf: &ElfInfo) -> (r: u128)
        ensures
            r == allocated_size(elf.sections@),
    {
        let n = elf.sections.len();
        let mut total: u128 = 0;
        let mut i: usize = 0;
        while i < n
            invariant
                n == elf.sections@.len(),
                i <= n,
                total == allocated_size(elf.sections@.subrange(0, i as int)),
            decreases n - i,
        {
            let s = &elf.sections[i];
            proof {
                assert(elf.sections@.subrange(0, i + 1).drop_last() == elf.sections@.subrange(0, i as int));
                lemma_allocated_size_bound(elf.sections@.subrange(0, i as int));
                assert(i * 0xffff_ffff_ffff_ffffint + 0xffff_ffff_ffff_ffffint <= u128::MAX) by (nonlinear_arith)
                    requires
                        i < n,
                        n <= usize::MAX,
                ;
            }
            if s.sh_flags & SHF_ALLOC != 0 {
                total = total + s.sh_size as u128;
            }
            i += 1;
        }
        assert(elf.sections@.subrange(0, n as int) == elf.sections@);
        total
    }

    /// The declared section header table does not fit in the file (or is absent).
    fn check_section_table_consistency(raw_data: &[u8], elf: &ElfInfo) -> (r: bool)
        ensures
            r == table_inconsistent(elf.header.e_shoff, elf.header.e_shnum, elf.header.e_shentsize, raw_data@.len() as int),
    {
        let shnum = elf.header.e_shnum as u64;
        if shnum == 0 {
            return true;
        }
        let shentsize = elf.header.e_shentsize as u64;
        assert(shnum * shentsize <= 0xffff * 0xffff) by (nonlinear_arith)
            requires
                shnum <= 0xffff,
                shentsize <= 0xffff,
        ;
        let table_end = elf.header.e_shoff.saturating_add(shnum * shentsize);
        table_end > raw_data.len() as u64
    }

    /// The entry point lies in a loaded section that is neither `.text` nor
    /// the last section by address.
    fn check_entry_point_outside_text(elf: &ElfInfo) -> (r: bool)
        ensures
            r == entry_outside_text(elf.sections@, elf.header.e_entry),
    {
        let entry = elf.header.e_entry;
        let n = elf.sections.len();
        let mut max_addr: u64 = 0;
        let mut i: usize = 0;
        while i < n
            invariant
                n == elf.sections@.len(),
                i <= n,
                forall|j: int| 0 <= j < i ==> #[trigger] elf.sections@[j].sh_addr <= max_addr,
                i == 0 ==> max_addr == 0,
                i > 0 ==> exists|j: int| 0 <= j < i && #[trigger] elf.sections@[j].sh_addr == max_addr,
            decreases n - i,
        {
            if elf.sections[i].sh_addr > max_addr {
                max_addr = elf.sections[i].sh_addr;
                assert(elf.sections@[i as int].sh_addr == max_addr);
            } else if i == 0 {
                assert(elf.sections@[0].sh_addr == max_addr);
            }
            i += 1;
        }
        let mut k: usize = 0;
        while k < n
            invariant
                n == elf.sections@.len(),
                k <= n,
                entry == elf.header.e_entry,
                forall|j: int| 0 <= j < n ==> #[trigger] elf.sections@[j].sh_addr <= max_addr,
                n > 0 ==> exists|j: int| 0 <= j < n && #[trigger] elf.sections@[j].sh_addr == max_addr,
                forall|j: int| 0 <= j < k ==> !#[trigger] entry_in_stub_section(elf.sections@, j, entry),
            decreases n - k,
        {
            let s = &elf.sections[k];
            let is_text = match &s.name {
                Some(name) => str_eq(name.as_str(), ".text"),
                None => false,
            };
            if s.sh_flags & SHF_ALLOC != 0 && entry >= s.sh_addr && entry < s.sh_addr.saturating_add(s.sh_size)
                && !is_text && s.sh_addr < max_addr {
                proof {
                    let j = choose|j: int| 0 <= j < n && #[trigger] elf.sections@[j].sh_addr == max_addr;
                    assert(elf.sections@[j].sh_addr > elf.sections@[k as int].sh_addr);
                    assert(below_last_by_address(elf.sections@, k as int));
                    assert(entry_in_stub_section(elf.sections@, k as int, entry));
                }
                return true;
            }
            proof {
                if below_last_by_address(elf.sections@, k as int) {
                    let j = choose|j: int| 0 <= j < elf.sections@.len() && #[trigger] elf.sections@[j].sh_addr > elf.sections@[k as int].sh_addr;
                    assert(elf.sections@[j].sh_addr <= max_addr);
                }
            }
            k += 1;
        }
        false
    }

    /// `name` is one of the standard section names.
    fn is_standard(name: &str) -> (r: bool)
        ensures
            r == is_standard_name(name@),
    {
        let mut k: usize = 0;
        while k < 36
            invariant
                k <= 36,
                forall|j: int| 0 <= j < k ==> STANDARD_SECTION_NAMES@[j]@ != name@,
            decreases 36 - k,
        {
            if str_eq(STANDARD_SECTION_NAMES[k], name) {
                return true;
            }
            k += 1;
        }
        false
    }

    fn count_nonstandard_names(elf: &ElfInfo) -> (r: usize)
        ensures
            r == nonstandard_count(elf.sections@),
    {
        let n = elf.sections.len();
        let mut count: usize = 0;
        let mut i: usize = 0;
        while i < n
            invariant
                n == elf.sections@.len(),
                i <= n,
                count == nonstandard_count(elf.sections@.subrange(0, i as int)),
                count <= i,
            decreases n - i,
        {
            let s = &elf.sections[i];
            assert(elf.sections@.subrange(0, i + 1).drop_last() == elf.sections@.subrange(0, i as int));
            let flagged = match &s.name {
                Some(name) => !name.as_str().is_empty() && !Self::is_standard(name.as_str()),
                None => false,
            };
            if flagged {
                count += 1;
            }
            i += 1;
        }
        assert(elf.sections@.subrange(0, n as int) == elf.sections@);
        count
    }

    /// One of the packer signatures occurs in the raw bytes.
    fn scan_known_signatures(raw_data: &[u8]) -> (r: bool)
        ensures
            r == has_packer_signature(raw_data@),
    {
        let mut k: usize = 0;
        while k < 9
            invariant
                k <= 9,
                forall|j: int| 0 <= j < k ==> !crate::text::contains_sub(raw_data@, #[trigger] KNOWN_PACKER_SIGNATURES@[j].spec_bytes()),
            decreases 9 - k,
        {
            if Self::contains_bytes(raw_data, KNOWN_PACKER_SIGNATURES[k].as_bytes()) {
                return true;
            }
            k += 1;
        }
        false
    }

    /// Whether `needle` (non-empty) occurs in `haystack`.
    fn contains_bytes(haystack: &[u8], needle: &[u8]) -> (r: bool)
        ensures
            r == crate::text::contains_sub(haystack@, needle@),
    {
        contains_bytes(haystack, needle)
    }
}

/// Section names that GNU toolchains produce by themselves: code and data
/// (`.text`, `.data`, `.bss`, `.rodata`, `.rodata1`, `.data1`, `.tbss`,
/// `.tdata`), start-up and shut-down (`.init`, `.fini`, `.init_array`,
/// `.fini_array`, `.ctors`, `.dtors`, `.jcr`), dynamic linking (`.plt`,
/// `.got`, `.got.plt`, `.dynamic`, `.dynsym`, `.dynstr`, `.interp`, `.hash`,
/// `.gnu.hash`, `.rela.dyn`, `.rela.plt`, `.gnu.version`, `.gnu.version_r`,
/// `.gnu.version_d`), symbols (`.symtab`, `.strtab`, `.shstrtab`), notes and
/// unwinding (`.comment`, `.note`, `.eh_frame`, `.eh_frame_hdr`).
pub open spec fn toolchain_section_name(n: Seq<char>) -> bool {
    n == ".text"@
        || n == ".data"@
        || n == ".bss"@
        || n == ".rodata"@
        || n == ".init"@
        || n == ".fini"@
        || n == ".plt"@
        || n == ".got"@
        || n == ".got.plt"@
        || n == ".dynamic"@
        || n == ".dynsym"@
        || n == ".dynstr"@
        || n == ".symtab"@
        || n == ".strtab"@
        || n == ".shstrtab"@
        || n == ".interp"@
        || n == ".hash"@
        || n == ".gnu.hash"@
        || n == ".comment"@
        || n == ".note"@
        || n == ".eh_frame"@
        || n == ".eh_frame_hdr"@
        || n == ".init_array"@
        || n == ".fini_array"@
        || n == ".rela.dyn"@
        || n == ".rela.plt"@
        || n == ".tbss"@
        || n == ".tdata"@
        || n == ".gnu.version"@
        || n == ".gnu.version_r"@
        || n == ".gnu.version_d"@
        || n == ".ctors"@
        || n == ".dtors"@
        || n == ".jcr"@
        || n == ".rodata1"@
        || n == ".data1"@
}

/// The standard names are exactly the toolchain ones, so a section counts as
/// non-standard exactly when it has a non-empty name that no toolchain
/// produces; a file whose sections all have toolchain names (or none) has a
/// non-standard count of 0, and one whose sections all have other non-empty
/// names has one for every section.
pub proof fn lemma_standard_section_names(n: Seq<char>, s: SectionInfo, r: &PackingFeature, data: Seq<u8>, elf: &ElfInfo)
    ensures
        is_standard_name(n) <==> toolchain_section_name(n),
        nonstandard_named(s) <==> (s.name matches Some(nm) && nm@.len() > 0 && !toolchain_section_name(nm@)),
        is_packing_of(r, data, elf) && (forall|i: int| 0 <= i < elf.sections@.len()
            ==> !(#[trigger] elf.sections@[i].name matches Some(nm) && nm@.len() > 0 && !toolchain_section_name(nm@)))
            ==> r.nonstandard_section_name_count == 0,
        is_packing_of(r, data, elf) && (forall|i: int| 0 <= i < elf.sections@.len()
            ==> (#[trigger] elf.sections@[i].name matches Some(nm) && nm@.len() > 0 && !toolchain_section_name(nm@)))
            ==> r.nonstandard_section_name_count == elf.sections@.len(),
{
    lemma_standard_iff_toolchain(n);
    if s.name is Some {
        lemma_standard_iff_toolchain(s.name->0@);
    }
    lemma_nonstandard_count_extremes(elf.sections@);
}

proof fn lemma_standard_iff_toolchain(n: Seq<char>)
    ensures
        is_standard_name(n) <==> toolchain_section_name(n),
{
    if n == ".text"@ { assert(STANDARD_SECTION_NAMES@[0] == ".text"); }
    if n == ".data"@ { assert(STANDARD_SECTION_NAMES@[1] == ".data"); }
    if n == ".bss"@ { assert(STANDARD_SECTION_NAMES@[2] == ".bss"); }
    if n == ".rodata"@ { assert(STANDARD_SECTION_NAMES@[3] == ".rodata"); }
    if n == ".init"@ { assert(STANDARD_SECTION_NAMES@[4] == ".init"); }
    if n == ".fini"@ { assert(STANDARD_SECTION_NAMES@[5] == ".fini"); }
    if n == ".plt"@ { assert(STANDARD_SECTION_NAMES@[6] == ".plt"); }
    if n == ".got"@ { assert(STANDARD_SECTION_NAMES@[7] == ".got"); }
    if n == ".got.plt"@ { assert(STANDARD_SECTION_NAMES@[8] == ".got.plt"); }
    if n == ".dynamic"@ { assert(STANDARD_SECTION_NAMES@[9] == ".dynamic"); }
    if n == ".dynsym"@ { assert(STANDARD_SECTION_NAMES@[10] == ".dynsym"); }
    if n == ".dynstr"@ { assert(STANDARD_SECTION_NAMES@[11] == ".dynstr"); }
    if n == ".symtab"@ { assert(STANDARD_SECTION_NAMES@[12] == ".symtab"); }
    if n == ".strtab"@ { assert(STANDARD_SECTION_NAMES@[13] == ".strtab"); }
    if n == ".shstrtab"@ { assert(STANDARD_SECTION_NAMES@[14] == ".shstrtab"); }
    if n == ".interp"@ { assert(STANDARD_SECTION_NAMES@[15] == ".interp"); }
    if n == ".hash"@ { assert(STANDARD_SECTION_NAMES@[16] == ".hash"); }
    if n == ".gnu.hash"@ { assert(STANDARD_SECTION_NAMES@[17] == ".gnu.hash"); }
    if n == ".comment"@ { assert(STANDARD_SECTION_NAMES@[18] == ".comment"); }
    if n == ".note"@ { assert(STANDARD_SECTION_NAMES@[19] == ".note"); }
    if n == ".eh_frame"@ { assert(STANDARD_SECTION_NAMES@[20] == ".eh_frame"); }
    if n == ".eh_frame_hdr"@ { assert(STANDARD_SECTION_NAMES@[21] == ".eh_frame_hdr"); }
    if n == ".init_array"@ { assert(STANDARD_SECTION_NAMES@[22] == ".init_array"); }
    if n == ".fini_array"@ { assert(STANDARD_SECTION_NAMES@[23] == ".fini_array"); }
    if n == ".rela.dyn"@ { assert(STANDARD_SECTION_NAMES@[24] == ".rela.dyn"); }
    if n == ".rela.plt"@ { assert(STANDARD_SECTION_NAMES@[25] == ".rela.plt"); }
    if n == ".tbss"@ { assert(STANDARD_SECTION_NAMES@[26] == ".tbss"); }
    if n == ".tdata"@ { assert(STANDARD_SECTION_NAMES@[27] == ".tdata"); }
    if n == ".gnu.version"@ { assert(STANDARD_SECTION_NAMES@[28] == ".gnu.version"); }
    if n == ".gnu.version_r"@ { assert(STANDARD_SECTION_NAMES@[29] == ".gnu.version_r"); }
    if n == ".gnu.version_d"@ { assert(STANDARD_SECTION_NAMES@[30] == ".gnu.version_d"); }
    if n == ".ctors"@ { assert(STANDARD_SECTION_NAMES@[31] == ".ctors"); }
    if n == ".dtors"@ { assert(STANDARD_SECTION_NAMES@[32] == ".dtors"); }
    if n == ".jcr"@ { assert(STANDARD_SECTION_NAMES@[33] == ".jcr"); }
    if n == ".rodata1"@ { assert(STANDARD_SECTION_NAMES@[34] == ".rodata1"); }
    if n == ".data1"@ { assert(STANDARD_SECTION_NAMES@[35] == ".data1"); }
    if is_standard_name(n) {
        let k = choose|k: int| 0 <= k < 36 && #[trigger] STANDARD_SECTION_NAMES@[k]@ == n;
        if k == 0 { assert(STANDARD_SECTION_NAMES@[0] == ".text"); }
        if k == 1 { assert(STANDARD_SECTION_NAMES@[1] == ".data"); }
        if k == 2 { assert(STANDARD_SECTION_NAMES@[2] == ".bss"); }
        if k == 3 { assert(STANDARD_SECTION_NAMES@[3] == ".rodata"); }
        if k == 4 { assert(STANDARD_SECTION_NAMES@[4] == ".init"); }
        if k == 5 { assert(STANDARD_SECTION_NAMES@[5] == ".fini"); }
        if k == 6 { assert(STANDARD_SECTION_NAMES@[6] == ".plt"); }
        if k == 7 { assert(STANDARD_SECTION_NAMES@[7] == ".got"); }
        if k == 8 { assert(STANDARD_SECTION_NAMES@[8] == ".got.plt"); }
        if k == 9 { assert(STANDARD_SECTION_NAMES@[9] == ".dynamic"); }
        if k == 10 { assert(STANDARD_SECTION_NAMES@[10] == ".dynsym"); }
        if k == 11 { assert(STANDARD_SECTION_NAMES@[11] == ".dynstr"); }
        if k == 12 { assert(STANDARD_SECTION_NAMES@[12] == ".symtab"); }
        if k == 13 { assert(STANDARD_SECTION_NAMES@[13] == ".strtab"); }
        if k == 14 { assert(STANDARD_SECTION_NAMES@[14] == ".shstrtab"); }
        if k == 15 { assert(STANDARD_SECTION_NAMES@[15] == ".interp"); }
        if k == 16 { assert(STANDARD_SECTION_NAMES@[16] == ".hash"); }
        if k == 17 { assert(STANDARD_SECTION_NAMES@[17] == ".gnu.hash"); }
        if k == 18 { assert(STANDARD_SECTION_NAMES@[18] == ".comment"); }
        if k == 19 { assert(STANDARD_SECTION_NAMES@[19] == ".note"); }
        if k == 20 { assert(STANDARD_SECTION_NAMES@[20] == ".eh_frame"); }
        if k == 21 { assert(STANDARD_SECTION_NAMES@[21] == ".eh_frame_hdr"); }
        if k == 22 { assert(STANDARD_SECTION_NAMES@[22] == ".init_array"); }
        if k == 23 { assert(STANDARD_SECTION_NAMES@[23] == ".fini_array"); }
        if k == 24 { assert(STANDARD_SECTION_NAMES@[24] == ".rela.dyn"); }
        if k == 25 { assert(STANDARD_SECTION_NAMES@[25] == ".rela.plt"); }
        if k == 26 { assert(STANDARD_SECTION_NAMES@[26] == ".tbss"); }
        if k == 27 { assert(STANDARD_SECTION_NAMES@[27] == ".tdata"); }
        if k == 28 { assert(STANDARD_SECTION_NAMES@[28] == ".gnu.version"); }
        if k == 29 { assert(STANDARD_SECTION_NAMES@[29] == ".gnu.version_r"); }
        if k == 30 { assert(STANDARD_SECTION_NAMES@[30] == ".gnu.version_d"); }
        if k == 31 { assert(STANDARD_SECTION_NAMES@[31] == ".ctors"); }
        if k == 32 { assert(STANDARD_SECTION_NAMES@[32] == ".dtors"); }
        if k == 33 { assert(STANDARD_SECTION_NAMES@[33] == ".jcr"); }
        if k == 34 { assert(STANDARD_SECTION_NAMES@[34] == ".rodata1"); }
        if k == 35 { assert(STANDARD_SECTION_NAMES@[35] == ".data1"); }
    }
}

proof fn lemma_nonstandard_count_extremes(secs: Seq<SectionInfo>)
    ensures
        (forall|i: int| 0 <= i < secs.len()
            ==> !(#[trigger] secs[i].name matches Some(nm) && nm@.len() > 0 && !toolchain_section_name(nm@)))
            ==> nonstandard_count(secs) == 0,
        (forall|i: int| 0 <= i < secs.len()
            ==> (#[trigger] secs[i].name matches Some(nm) && nm@.len() > 0 && !toolchain_section_name(nm@)))
            ==> nonstandard_count(secs) == secs.len(),
    decreases secs.len(),
{
    if secs.len() > 0 {
        lemma_nonstandard_count_extremes(secs.drop_last());
        let last = secs.last();
        assert(last == secs[secs.len() - 1]);
        if last.name is Some {
            lemma_standard_iff_toolchain(last.name->0@);
        }
        assert(forall|i: int| 0 <= i < secs.drop_last().len() ==> secs.drop_last()[i] == secs[i]);
    }
}

/// Known packer signatures: the UPX magic `UPX!` and section names
/// `.upx0`, `.upx1`, `.upx2`, the UPX banner `$Info: This file is packed`,
/// and the marks of ASPack, PECompact, FSG (`FSG!`) and MPRESS. The signal
/// is raised exactly when one of these byte strings occurs in the file.
pub proof fn lemma_packer_signatures(r: &PackingFeature, data: Seq<u8>, elf: &ElfInfo)
    requires
        is_packing_of(r, data, elf),
    ensures
        r.known_packer_signature_found <==> (
            crate::text::contains_sub(data, "UPX!".spec_bytes())
            || crate::text::contains_sub(data, ".upx0".spec_bytes())
            || crate::text::contains_sub(data, ".upx1".spec_bytes())
            || crate::text::contains_sub(data, ".upx2".spec_bytes())
            || crate::text::contains_sub(data, "$Info: This file is packed".spec_bytes())
            || crate::text::contains_sub(data, "ASPack".spec_bytes())
            || crate::text::contains_sub(data, "PECompact".spec_bytes())
            || crate::text::contains_sub(data, "FSG!".spec_bytes())
            || crate::text::contains_sub(data, "MPRESS".spec_bytes())
        ),
{
    if crate::text::contains_sub(data, "UPX!".spec_bytes()) { assert(KNOWN_PACKER_SIGNATURES@[0] == "UPX!"); }
    if crate::text::contains_sub(data, ".upx0".spec_bytes()) { assert(KNOWN_PACKER_SIGNATURES@[1] == ".upx0"); }
    if crate::text::contains_sub(data, ".upx1".spec_bytes()) { assert(KNOWN_PACKER_SIGNATURES@[2] == ".upx1"); }
    if crate::text::contains_sub(data, ".upx2".spec_bytes()) { assert(KNOWN_PACKER_SIGNATURES@[3] == ".upx2"); }
    if crate::text::contains_sub(data, "$Info: This file is packed".spec_bytes()) { assert(KNOWN_PACKER_SIGNATURES@[4] == "$Info: This file is packed"); }
    if crate::text::contains_sub(data, "ASPack".spec_bytes()) { assert(KNOWN_PACKER_SIGNATURES@[5] == "ASPack"); }
    if crate::text::contains_sub(data, "PECompact".spec_bytes()) { assert(KNOWN_PACKER_SIGNATURES@[6] == "PECompact"); }
    if crate::text::contains_sub(data, "FSG!".spec_bytes()) { assert(KNOWN_PACKER_SIGNATURES@[7] == "FSG!"); }
    if crate::text::contains_sub(data, "MPRESS".spec_bytes()) { assert(KNOWN_PACKER_SIGNATURES@[8] == "MPRESS"); }
    if has_packer_signature(data) {
        let k = choose|k: int| 0 <= k < 9 && crate::text::contains_sub(data, #[trigger] KNOWN_PACKER_SIGNATURES@[k].spec_bytes());
        if k == 0 { assert(KNOWN_PACKER_SIGNATURES@[0] == "UPX!"); }
        if k == 1 { assert(KNOWN_PACKER_SIGNATURES@[1] == ".upx0"); }
        if k == 2 { assert(KNOWN_PACKER_SIGNATURES@[2] == ".upx1"); }
        if k == 3 { assert(KNOWN_PACKER_SIGNATURES@[3] == ".upx2"); }
        if k == 4 { assert(KNOWN_PACKER_SIGNATURES@[4] == "$Info: This file is packed"); }
        if k == 5 { assert(KNOWN_PACKER_SIGNATURES@[5] == "ASPack"); }
        if k == 6 { assert(KNOWN_PACKER_SIGNATURES@[6] == "PECompact"); }
        if k == 7 { assert(KNOWN_PACKER_SIGNATURES@[7] == "FSG!"); }
        if k == 8 { assert(KNOWN_PACKER_SIGNATURES@[8] == "MPRESS"); }
    }
}

} // verus!
