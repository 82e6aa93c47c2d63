use progetto::api_imports::ApiImportFeature;
use progetto::architecture::ArchKind;
use progetto::elf_info::{DynSymbol, ElfHeader, ElfInfo, RelocTypes, SectionInfo};
use progetto::extraction_warnings::WarningLog;
use progetto::instruction::{Disassembler, InstructionFeature};
use progetto::metadata::MetadataFeature;
use progetto::packing::PackingFeature;
use progetto::relocation::RelocationFeature;
use progetto::strings::StringFeature;
use progetto::structural::StructuralFeature;

fn section(name: Option<&str>, sh_type: u32, flags: u64, addr: u64, offset: u64, size: u64) -> SectionInfo {
    SectionInfo { name: name.map(|s| s.to_string()), sh_type, sh_flags: flags, sh_addr: addr, sh_offset: offset, sh_size: size }
}

fn info(sections: Vec<SectionInfo>) -> ElfInfo {
    ElfInfo {
        header: ElfHeader { is_64: true, e_type: 3, e_machine: 62, e_entry: 0x1010, e_shoff: 100, e_shnum: 2, e_shentsize: 64 },
        sections,
        segment_flags: vec![4, 7, 6, 3],
        symbol_count: 0,
        dynamic_symbols: vec![
            DynSymbol { st_name: 0, name: Some("ignored".to_string()) },
            DynSymbol { st_name: 1, name: Some("open".to_string()) },
            DynSymbol { st_name: 6, name: Some("socket".to_string()) },
            DynSymbol { st_name: 13, name: Some("open".to_string()) },
            DynSymbol { st_name: 20, name: Some("".to_string()) },
            DynSymbol { st_name: 21, name: None },
            DynSymbol { st_name: 22, name: Some("fork".to_string()) },
            DynSymbol { st_name: 27, name: Some("printf".to_string()) },
        ],
        library_count: 2,
        relocs: RelocTypes { dynrela: vec![8, 6, 37], dynrel: vec![], pltreloc: vec![7, 7, 99] },
        strtab: Ok(vec!["".to_string(), "main".to_string(), "x".to_string()]),
        dynstrtab: Err("bad table".to_string()),
    }
}

fn sections() -> Vec<SectionInfo> {
    vec![
        section(None, 0, 0, 0, 0, 0),
        section(Some(".text"), 1, 6, 0x1000, 0x40, 0x20),
        section(Some(".data"), 1, 3, 0x2000, 0x60, 0x10),
        section(Some(".evil"), 1, 7, 0x3000, 0x70, 0x08),
        section(Some(".bss"), 8, 3, 0x4000, 0x78, 0x100),
        section(Some(".rodata"), 1, 2, 0x5000, 0x78, 0x10),
    ]
}

#[test]
fn metadata_entry_point_and_flags() {
    let e = info(sections());
    let m = MetadataFeature::extract(&e, 500);
    assert_eq!(m.file_size, 500);
    assert!(m.is_shared_object);
    assert!(!m.is_stripped);
    assert_eq!(m.arch, ArchKind::X86_64);
    assert_eq!(m.entry_point_position, Some((0x10, 0x20)));
    // the allocated section last in the file is .rodata (offset 0x78, after .bss's tie)
    assert!(!m.entry_point_last_section);
    let mut e2 = info(sections());
    e2.header.e_entry = 0x5004;
    let m2 = MetadataFeature::extract(&e2, 500);
    assert!(m2.entry_point_last_section);
    let mut e3 = info(sections());
    e3.header.e_entry = 0x9999;
    assert_eq!(MetadataFeature::extract(&e3, 500).entry_point_position, None);
}

#[test]
fn packing_signals_of_sections() {
    let e = info(sections());
    let data = vec![0u8; 200];
    let p = PackingFeature::extract(&data, &e);
    assert_eq!(p.allocated_section_size, 0x20 + 0x10 + 0x08 + 0x100 + 0x10);
    // table ends at 100 + 2 * 64 = 228 > 200
    assert!(p.section_table_inconsistent);
    assert!(!p.entry_point_outside_text);
    assert_eq!(p.nonstandard_section_name_count, 1);
    assert!(!p.known_packer_signature_found);
    let mut data2 = vec![0u8; 300];
    data2[100..106].copy_from_slice(b"ASPack");
    let p2 = PackingFeature::extract(&data2, &e);
    assert!(!p2.section_table_inconsistent);
    assert!(p2.known_packer_signature_found);
}

#[test]
fn packing_no_sections_is_inconsistent() {
    let mut e = info(vec![]);
    e.header.e_shnum = 0;
    let p = PackingFeature::extract(&[0u8; 10], &e);
    assert!(p.section_table_inconsistent);
    assert!(!p.entry_point_outside_text);
    let mut e2 = info(sections());
    e2.header.e_entry = 0x2000;
    assert!(PackingFeature::extract(&[0u8; 10], &e2).entry_point_outside_text);
}

#[test]
fn relocation_counts_nonstandard_types() {
    let e = info(vec![]);
    let r = RelocationFeature::extract(&e, ArchKind::X86_64);
    assert_eq!(r.reloc_dyn_count, 3);
    assert_eq!(r.reloc_plt_count, 3);
    assert_eq!(r.nonstandard_reloc_type_count, 2);
    let r2 = RelocationFeature::extract(&e, ArchKind::Unsupported);
    assert_eq!(r2.nonstandard_reloc_type_count, 6);
    assert_eq!(RelocationFeature::standard_reloc_types(ArchKind::Arm), vec![2, 21, 22, 23]);
}

#[test]
fn structural_counts_and_sizes() {
    let e = info(sections());
    let s = StructuralFeature::extract(&[0u8; 0x80], &e).unwrap();
    assert_eq!(s.section_count, 6);
    assert_eq!(s.segment_count, 4);
    assert_eq!(s.wx_segment_count, 2);
    assert_eq!(s.empty_section_count, 2);
    assert_eq!(s.rwx_section_count, 1);
    assert_eq!(s.code_size, 0x20 + 0x08);
    assert_eq!(s.data_size, 0x10 + 0x10);
    // .rodata (0x78 + 0x10) runs past the 0x80-byte file
    assert_eq!(s.entropy_ranges, vec![(0x40, 0x20), (0x60, 0x10), (0x70, 0x08)]);
}

#[test]
fn api_imports_distinct_names() {
    let e = info(vec![]);
    let a = ApiImportFeature::extract(&e);
    assert_eq!(a.dynamic_library_count, 2);
    assert_eq!(a.total_import_count, 4);
    assert_eq!(a.file_io_api_count, 1);
    assert_eq!(a.network_api_count, 1);
    assert_eq!(a.process_api_count, 1);
}

#[test]
fn strings_warn_on_unreadable_table() {
    let e = info(sections());
    let mut log = WarningLog::new();
    let s = StringFeature::extract(&e, &[0u8; 0x80], &mut log);
    // "main" and "x" from strtab; .rodata bytes 0x78..0x80 are zero
    assert_eq!(s.string_count, 2);
    assert_eq!(s.total_length, 5);
    assert_eq!(log.warnings.len(), 1);
    assert_eq!(log.warnings[0].module, "strings");
    assert_eq!(log.warnings[0].message, "dynstrtab illeggibile, saltata: bad table");
}

#[test]
fn strings_rodata_outside_file_warns() {
    let mut e = info(sections());
    e.strtab = Ok(vec![]);
    let mut log = WarningLog::new();
    let s = StringFeature::extract(&e, &[0u8; 0x70], &mut log);
    assert_eq!(s.string_count, 0);
    assert_eq!(s.classified_count, 0);
    let msgs: Vec<&str> = log.warnings.iter().map(|w| w.message.as_str()).collect();
    assert_eq!(msgs, vec![
        "dynstrtab illeggibile, saltata: bad table",
        ".rodata offset/size fuori dai limiti del file (offset=120, size=16, filelen=112)",
        "nessuna stringa estratta da strtab/dynstrtab/.rodata",
    ]);
}

#[test]
fn strings_classify_limit() {
    let mut e = info(vec![]);
    let many: Vec<String> = (0..2500).map(|i| format!("s{} /tmp", i)).collect();
    e.strtab = Ok(many);
    e.dynstrtab = Ok(vec![]);
    let mut log = WarningLog::new();
    let s = StringFeature::extract(&e, &[], &mut log);
    assert_eq!(s.string_count, 2500);
    assert_eq!(s.classified_count, 2000);
    assert_eq!(s.suspicious_paths_count, 2000);
    assert!(log.is_empty());
}

#[test]
fn instruction_unsupported_arch_warns() {
    let e = info(sections());
    let mut log = WarningLog::new();
    let f = InstructionFeature::extract(&e, &[0u8; 0x80], ArchKind::Unsupported, &mut log);
    assert_eq!(f.total, 0);
    assert_eq!(log.warnings[0].module, "instruction");
    assert_eq!(log.warnings[0].message, "nessun supporto capstone per Unsupported, feature azzerate");
}

#[test]
fn instruction_counts_arm64_listing() {
    // AArch64: mov x0, #0 ; b.eq . ; ret
    let code: Vec<u8> = vec![0x00, 0x00, 0x80, 0xd2, 0x00, 0x00, 0x00, 0x54, 0xc0, 0x03, 0x5f, 0xd6];
    let mut e = info(vec![section(Some(".text"), 1, 6, 0x1000, 0, code.len() as u64)]);
    e.header.e_machine = 183;
    let mut log = WarningLog::new();
    let f = InstructionFeature::extract(&e, &code, ArchKind::Arm64, &mut log);
    assert_eq!(f.total, 3);
    assert_eq!(f.mov_count, 1);
    assert_eq!(f.control_flow_count, 2);
    assert!(log.is_empty());
}

#[test]
fn instruction_count_sections_x86_64() {
    // x86-64: push rbp ; mov rbp, rsp ; xor eax, eax ; syscall ; ret
    let code: Vec<u8> = vec![0x55, 0x48, 0x89, 0xe5, 0x31, 0xc0, 0x0f, 0x05, 0xc3];
    let e = info(vec![
        section(Some(".text"), 1, 6, 0x1000, 0, code.len() as u64),
        section(Some(".data"), 1, 3, 0x2000, 0, code.len() as u64),
    ]);
    let cs = Disassembler::for_arch(ArchKind::X86_64).expect("capstone supports x86-64");
    let mut log = WarningLog::new();
    let f = InstructionFeature::count_sections(&cs, &e, &code, &mut log);
    assert_eq!(f.total, 5);
    assert_eq!(f.mov_count, 2);
    assert_eq!(f.logic_count, 1);
    assert_eq!(f.system_count, 1);
    assert_eq!(f.control_flow_count, 1);
    assert_eq!(f.sections_failed, 0);
    assert!(log.is_empty());
}

#[test]
fn disassembler_absent_for_unsupported_arch() {
    assert!(Disassembler::for_arch(ArchKind::Unsupported).is_none());
}

#[test]
fn entry_in_last_section_is_not_a_stub() {
    let mut e = info(vec![
        section(Some(".text"), 1, 6, 0, 0x40, 16),
        section(Some(".other"), 1, 6, 16, 0x50, 16),
    ]);
    e.header.e_entry = 20;
    assert!(!PackingFeature::extract(&[0u8; 300], &e).entry_point_outside_text);
    e.header.e_entry = 4;
    assert!(!PackingFeature::extract(&[0u8; 300], &e).entry_point_outside_text);
}

#[test]
fn entry_in_earlier_non_text_section_is_a_stub() {
    // no .text at all: the rule still applies to the other sections
    let mut e = info(vec![
        section(Some(".stub"), 1, 6, 0x1000, 0x40, 16),
        section(Some(".payload"), 1, 3, 0x2000, 0x50, 16),
    ]);
    e.header.e_entry = 0x1004;
    assert!(PackingFeature::extract(&[0u8; 300], &e).entry_point_outside_text);
    e.header.e_entry = 0x2004;
    assert!(!PackingFeature::extract(&[0u8; 300], &e).entry_point_outside_text);
    e.header.e_entry = 0x9000;
    assert!(!PackingFeature::extract(&[0u8; 300], &e).entry_point_outside_text);
}

#[test]
fn unloaded_section_holding_entry_is_not_a_stub() {
    // PIE-like layout: .symtab is not loaded (no SHF_ALLOC) and sits at address 0
    let mut e = info(vec![
        section(Some(".text"), 1, 6, 0x1000, 0x1000, 0x100),
        section(Some(".data"), 1, 3, 0x4000, 0x2000, 0x100),
        section(Some(".symtab"), 2, 0, 0, 0x3000, 0x3000),
    ]);
    e.header.e_entry = 0x1010;
    assert!(!PackingFeature::extract(&[0u8; 300], &e).entry_point_outside_text);
}

#[test]
fn instruction_extract_counts_for_supported_arch() {
    // x86-64: push rbp ; ret
    let code: Vec<u8> = vec![0x55, 0xc3];
    let e = info(vec![section(Some(".text"), 1, 6, 0x1000, 0, code.len() as u64)]);
    let mut log = WarningLog::new();
    let f = InstructionFeature::extract(&e, &code, ArchKind::X86_64, &mut log);
    assert_eq!(f.total, 2);
    assert_eq!(f.mov_count, 1);
    assert_eq!(f.control_flow_count, 1);
    assert!(log.is_empty());
    for arch in [ArchKind::X86, ArchKind::X86_64, ArchKind::Arm, ArchKind::Arm64] {
        assert!(Disassembler::for_arch(arch).is_some());
    }
}
