use progetto::architecture::ArchKind;
use progetto::elf_info::ElfInfo;
use progetto::sample::Sample;

/// One section of a hand-built ELF file.
struct Sec {
    name: &'static str,
    sh_type: u32,
    flags: u64,
    addr: u64,
    data: Vec<u8>,
    link: u32,
    entsize: u64,
}

fn put16(v: &mut Vec<u8>, x: u16) {
    v.extend_from_slice(&x.to_le_bytes());
}
fn put32(v: &mut Vec<u8>, x: u32) {
    v.extend_from_slice(&x.to_le_bytes());
}
fn put64(v: &mut Vec<u8>, x: u64) {
    v.extend_from_slice(&x.to_le_bytes());
}

/// A little-endian ELF64 executable for x86-64 with the given sections
/// (a null section and `.shstrtab` are added), entry point `entry`.
fn build_elf(secs: &[Sec], entry: u64, extra: &[u8]) -> Vec<u8> {
    let mut shstr: Vec<u8> = vec![0];
    let mut name_off = Vec::new();
    for s in secs {
        name_off.push(shstr.len() as u32);
        shstr.extend_from_slice(s.name.as_bytes());
        shstr.push(0);
    }
    let shstr_name = shstr.len() as u32;
    shstr.extend_from_slice(b".shstrtab\0");

    let mut body: Vec<u8> = Vec::new();
    let mut offsets = Vec::new();
    for s in secs {
        offsets.push(64 + body.len() as u64);
        body.extend_from_slice(&s.data);
    }
    let shstr_off = 64 + body.len() as u64;
    body.extend_from_slice(&shstr);
    body.extend_from_slice(extra);
    while body.len() % 8 != 0 {
        body.push(0);
    }
    let shoff = 64 + body.len() as u64;
    let shnum = secs.len() as u16 + 2;

    let mut f: Vec<u8> = vec![0x7f, b'E', b'L', b'F', 2, 1, 1, 0, 0, 0, 0, 0, 0, 0, 0, 0];
    put16(&mut f, 2); // e_type EXEC
    put16(&mut f, 62); // x86-64
    put32(&mut f, 1);
    put64(&mut f, entry);
    put64(&mut f, 0); // e_phoff
    put64(&mut f, shoff);
    put32(&mut f, 0);
    put16(&mut f, 64);
    put16(&mut f, 56);
    put16(&mut f, 0); // e_phnum
    put16(&mut f, 64);
    put16(&mut f, shnum);
    put16(&mut f, shnum - 1); // e_shstrndx
    f.extend_from_slice(&body);

    let sh = |f: &mut Vec<u8>, name: u32, ty: u32, flags: u64, addr: u64, off: u64, size: u64, link: u32, entsize: u64| {
        put32(f, name);
        put32(f, ty);
        put64(f, flags);
        put64(f, addr);
        put64(f, off);
        put64(f, size);
        put32(f, link);
        put32(f, 0);
        put64(f, 1);
        put64(f, entsize);
    };
    sh(&mut f, 0, 0, 0, 0, 0, 0, 0, 0);
    for (i, s) in secs.iter().enumerate() {
        sh(&mut f, name_off[i], s.sh_type, s.flags, s.addr, offsets[i], s.data.len() as u64, s.link, s.entsize);
    }
    sh(&mut f, shstr_name, 3, 0, 0, shstr_off, shstr.len() as u64, 0, 0);
    f
}

fn sample_elf() -> Vec<u8> {
    // mov rbp, rsp; add rax, rax; xor eax, eax; syscall; ret
    let code = vec![0x48, 0x89, 0xe5, 0x48, 0x01, 0xc0, 0x31, 0xc0, 0x0f, 0x05, 0xc3];
    let mut rodata = Vec::new();
    rodata.extend_from_slice(b"visit http://example.com now\0ab\0/usr/bin/sh\0ping 10.0.0.1\0");
    build_elf(
        &[
            Sec { name: ".text", sh_type: 1, flags: 6, addr: 0x401000, data: code, link: 0, entsize: 0 },
            Sec { name: ".rodata", sh_type: 1, flags: 2, addr: 0x402000, data: rodata, link: 0, entsize: 0 },
            Sec { name: ".upx0", sh_type: 1, flags: 3, addr: 0x403000, data: b"UPX!pad\0".to_vec(), link: 0, entsize: 0 },
        ],
        0x401003,
        b"",
    )
}

#[test]
fn parse_refuses_non_elf_bytes() {
    assert!(ElfInfo::parse(b"this is not an ELF file at all, just text").is_err());
}

#[test]
fn parse_reads_header_and_sections() {
    let data = sample_elf();
    let info = ElfInfo::parse(&data).expect("hand-built ELF parses");
    assert!(info.header.is_64);
    assert_eq!(info.header.e_machine, 62);
    assert_eq!(info.header.e_type, 2);
    assert_eq!(info.header.e_entry, 0x401003);
    assert_eq!(info.sections.len(), 5);
    assert_eq!(info.sections[1].name.as_deref(), Some(".text"));
    assert_eq!(info.sections[1].sh_flags, 6);
    assert_eq!(info.sections[1].sh_size, 11);
    assert_eq!(info.sections[3].name.as_deref(), Some(".upx0"));
    assert_eq!(info.segment_flags.len(), 0);
}

#[test]
fn sample_new_refuses_empty_file() {
    let r = Sample::new("empty.bin".to_string(), "/x/empty.bin".to_string(), Vec::new());
    assert_eq!(r.err(), Some("File empty.bin is empty".to_string()));
}

#[test]
fn sample_new_has_default_features() {
    let s = Sample::new("a.bin".to_string(), "/x/a.bin".to_string(), vec![1, 2, 3]).unwrap();
    assert_eq!(s.features.byte_level.total, 0);
    assert_eq!(s.features.byte_level.counts.len(), 256);
    assert!(s.features.byte_level.sha256.is_empty());
    assert_eq!(s.features.metadata.entry_point_position, None);
    assert!(!s.features.packing.known_packer_signature_found);
    assert_eq!(s.features.relocation.reloc_dyn_count, 0);
    assert_eq!(s.features.image.width, 0);
}

#[test]
fn sample_extract_fails_only_on_non_elf() {
    let mut s = Sample::new("t.txt".to_string(), "t.txt".to_string(), b"hello".to_vec()).unwrap();
    let r = s.extract();
    let e = r.err().expect("not ELF");
    let parse_error = ElfInfo::parse(b"hello").err().expect("not ELF");
    assert_eq!(e, format!("Cannot parse t.txt: {}", parse_error));
    // the byte statistics were taken before parsing and are kept
    assert_eq!(s.features.byte_level.total, 5);
    assert_eq!(s.features.byte_level.counts[b'l' as usize], 2);
    assert_eq!(s.features.byte_level.sha256.len(), 64);
    // everything else keeps its default value
    assert_eq!(s.features.metadata.arch, ArchKind::Unsupported);
    assert_eq!(s.features.structural.section_count, 0);
    assert_eq!(s.features.instruction.total, 0);
    assert_eq!(s.features.strings.string_count, 0);
    assert_eq!(s.features.texture.lbp_counts.len(), 256);
}

#[test]
fn sample_extract_full_feature_set() {
    let data = sample_elf();
    let len = data.len();
    let mut s = Sample::new("prog".to_string(), "d/prog".to_string(), data).unwrap();
    let log = s.extract().expect("ELF parses");
    let f = &s.features;

    // byte level
    assert_eq!(f.byte_level.total, len);
    assert_eq!(f.byte_level.counts.iter().sum::<usize>(), len);
    assert_eq!(f.byte_level.sha256.len(), 64);

    // metadata: entry at offset 3 of the 11-byte .text
    assert_eq!(f.metadata.arch, ArchKind::X86_64);
    assert!(f.metadata.is_64_bit);
    assert!(!f.metadata.is_shared_object);
    assert!(f.metadata.is_stripped);
    assert_eq!(f.metadata.entry_point_position, Some((3, 11)));
    // last allocated section in the file is .upx0, which does not hold the entry
    assert!(!f.metadata.entry_point_last_section);

    // instructions: mov, add, xor, syscall, ret
    assert_eq!(f.instruction.total, 5);
    assert_eq!(f.instruction.mov_count, 1);
    assert_eq!(f.instruction.arithmetic_count, 1);
    assert_eq!(f.instruction.logic_count, 1);
    assert_eq!(f.instruction.system_count, 1);
    assert_eq!(f.instruction.control_flow_count, 1);
    assert_eq!(f.instruction.sections_failed, 0);

    // strings from .rodata: runs longer than three characters
    assert_eq!(f.strings.string_count, 3);
    assert_eq!(f.strings.classified_count, 3);
    assert_eq!(f.strings.total_length, 28 + 11 + 13);
    assert_eq!(f.strings.network_indicators_count, 2);
    assert_eq!(f.strings.suspicious_paths_count, 1);

    // packing
    assert!(f.packing.known_packer_signature_found);
    assert!(!f.packing.entry_point_outside_text);
    assert_eq!(f.packing.nonstandard_section_name_count, 1);
    assert!(!f.packing.section_table_inconsistent);
    assert_eq!(f.packing.allocated_section_size, 11 + 58 + 8);

    // structural
    assert_eq!(f.structural.section_count, 5);
    assert_eq!(f.structural.segment_count, 0);
    assert_eq!(f.structural.empty_section_count, 1);
    assert_eq!(f.structural.rwx_section_count, 0);
    assert_eq!(f.structural.code_size, 11);
    assert_eq!(f.structural.data_size, 58 + 8);
    assert_eq!(f.structural.entropy_ranges.len(), 4);

    // no relocations, no imports
    assert_eq!(f.relocation.reloc_dyn_count, 0);
    assert_eq!(f.api_imports.total_import_count, 0);

    // image of a small file is 32 bytes wide
    assert_eq!(f.image.width, 32);
    assert!(log.is_empty());
}

#[test]
fn symbol_string_table_is_read() {
    // .strtab is section 1, .symtab (one null symbol of 24 bytes) links to it
    let data = build_elf(
        &[
            Sec { name: ".strtab", sh_type: 3, flags: 0, addr: 0, data: b"\0main\0helper_fn\0".to_vec(), link: 0, entsize: 0 },
            Sec { name: ".symtab", sh_type: 2, flags: 0, addr: 0, data: vec![0u8; 24], link: 1, entsize: 24 },
        ],
        0,
        b"",
    );
    let info = ElfInfo::parse(&data).expect("parses");
    assert_eq!(info.symbol_count, 1);
    assert_eq!(info.strtab, Ok(vec!["".to_string(), "main".to_string(), "helper_fn".to_string()]));
    let mut s = Sample::new("syms".to_string(), "syms".to_string(), data).unwrap();
    let log = s.extract().unwrap();
    let f = &s.features;
    assert!(!f.metadata.is_stripped);
    assert_eq!(f.strings.string_count, 2);
    assert_eq!(f.strings.total_length, 4 + 9);
    assert_eq!(f.metadata.arch, ArchKind::X86_64);
    // no executable section: nothing to disassemble, nothing refused
    assert_eq!(f.instruction.total, 0);
    assert!(log.is_empty());
}
