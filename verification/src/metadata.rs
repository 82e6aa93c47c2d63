//! Header-level metadata of an ELF file.
use vstd::prelude::*;

use crate::architecture::ArchKind;
use crate::elf_info::{ElfInfo, SectionInfo};

verus! {

/// `e_type` of a shared object (`ET_DYN`).
pub const ET_DYN: u16 = 3;

/// Section flag `SHF_ALLOC`.
pub const SHF_ALLOC: u64 = 2;

/// Header-level metadata of an ELF file.
#[derive(Debug)]
pub struct MetadataFeature {
    pub file_size: usize,
    pub is_64_bit: bool,
    pub is_shared_object: bool,
    /// Where the entry point lies in the first non-empty section whose address
    /// range holds it: (offset from the section start, section size). The
    /// entry point offset ratio is their quotient, 0 when there is none.
    pub entry_point_position: Option<(u64, u64)>,
    /// The entry point lies in the allocated section that comes last in the file.
    pub entry_point_last_section: bool,
    pub is_stripped: bool,
    pub arch: ArchKind,
}

/// The address range of a section holds `entry`.
pub open spec fn section_holds(s: SectionInfo, entry: u64) -> bool {
    s.sh_size != 0 && s.sh_addr <= entry && entry < s.sh_addr.saturating_add(s.sh_size)
}

/// Position of `entry` in the first section of `secs` that holds it.
pub open spec fn entry_position(secs: Seq<SectionInfo>, entry: u64) -> Option<(u64, u64)>
    decreases secs.len(),
{
    if secs.len() == 0 {
        None
    } else if section_holds(secs[0], entry) {
        Some(((entry - secs[0].sh_addr) as u64, secs[0].sh_size))
    } else {
        entry_position(secs.drop_first(), entry)
    }
}

/// (start address, end address, file offset) of the allocated non-empty
/// section that comes last in the file, ties going to the later header,
/// starting from `init`.
pub open spec fn last_alloc_from(secs: Seq<SectionInfo>, init: (u64, u64, u64)) -> (u64, u64, u64)
    decreases secs.len(),
{
    if secs.len() == 0 {
        init
    } else {
        let prev = last_alloc_from(secs.drop_last(), init);
        let s = secs.last();
        if s.sh_flags & SHF_ALLOC != 0 && s.sh_size > 0 && s.sh_offset >= prev.2 {
            (s.sh_addr, s.sh_addr.saturating_add(s.sh_size), s.sh_offset)
        } else {
            prev
        }
    }
}

/// The entry point lies in the last allocated section (none: false).
pub open spec fn entry_in_last_section(secs: Seq<SectionInfo>, entry: u64) -> bool {
    let (start, end, _) = last_alloc_from(secs, (0, 0, 0));
    end != 0 && start <= entry && entry < end
}

/// `r` is the metadata of a parsed ELF file of `file_size` bytes.
pub open spec fn is_metadata_of(r: &MetadataFeature, elf: &ElfInfo, file_size: usize) -> bool {
    &&& r.file_size == file_size
    &&& r.is_64_bit == elf.header.is_64
    &&& r.is_shared_object == (elf.header.e_type == ET_DYN)
    &&& r.is_stripped == (elf.symbol_count == 0 && elf.dynamic_symbols@.len() == 0)
    &&& r.entry_point_position == entry_position(elf.sections@, elf.header.e_entry)
    &&& r.entry_point_last_section == entry_in_last_section(elf.sections@, elf.header.e_entry)
    &&& r.arch == crate::architecture::arch_of_machine(elf.header.e_machine)
}

impl MetadataFeature {
    /// Metadata of a parsed ELF file of `file_size` bytes.
    pub fn extract(elf: &ElfInfo, file_size: usize) -> (r: Self)
        ensures
            is_metadata_of(&r, elf, file_size),
    {
        MetadataFeature {
            file_size,
            is_64_bit: elf.header.is_64,
            is_shared_object: elf.header.e_type == ET_DYN,
            entry_point_position: Self::entry_point_position(elf),
            entry_point_last_section: Self::check_last_section_entry_point(elf),
            is_stripped: elf.symbol_count == 0 && elf.dynamic_symbols.len() == 0,
            arch: ArchKind::from_e_machine(elf.header.e_machine),
        }
    }

    /// Position of the entry point inside the first non-empty section that
    /// holds it, as (offset, section size).
    fn entry_point_position(elf: &ElfInfo) -> (r: Option<(u64, u64)>)
        ensures
            r == entry_position(elf.sections@, elf.header.e_entry),
    {
        let entry = elf.header.e_entry;
        let mut i: usize = 0;
        assert(elf.sections@.skip(0) == elf.sections@);
        while i < elf.sections.len()
            invariant
                i <= elf.sections@.len(),
                entry == elf.header.e_entry,
                entry_position(elf.sections@, entry) == entry_position(elf.sections@.skip(i as int), entry),
            decreases elf.sections@.len() - i,
        {
            let s = &elf.sections[i];
            assert(elf.sections@.skip(i as int)[0] == elf.sections@[i as int]);
            if s.sh_size != 0 {
                let start = s.sh_addr;
                let end = start.saturating_add(s.sh_size);
                if entry >= start && entry < end {
                    return Some((entry - start, s.sh_size));
                }
            }
            assert(elf.sections@.skip(i as int).drop_first() == elf.sections@.skip(i + 1));
            i += 1;
        }
        None
    }

    fn check_last_section_entry_point(elf: &ElfInfo) -> (r: bool)
        ensures
            r == entry_in_last_section(elf.sections@, elf.header.e_entry),
    {
        let entry = elf.header.e_entry;
        let mut last_start: u64 = 0;
        let mut last_end: u64 = 0;
        let mut last_offset: u64 = 0;
        let mut i: usize = 0;
        while i < elf.sections.len()
            invariant
                i <= elf.sections@.len(),
                (last_start, last_end, last_offset) == last_alloc_from(elf.sections@.subrange(0, i as int), (0, 0, 0)),
            decreases elf.sections@.len() - i,
        {
            let s = &elf.sections[i];
            assert(elf.sections@.subrange(0, i + 1).drop_last() == elf.sections@.subrange(0, i as int));
            if s.sh_flags & SHF_ALLOC != 0 && s.sh_size > 0 && s.sh_offset >= last_offset {
                last_offset = s.sh_offset;
                last_start = s.sh_addr;
                last_end = s.sh_addr.saturating_add(s.sh_size);
            }
            i += 1;
        }
        assert(elf.sections@.subrange(0, elf.sections@.len() as int) == elf.sections@);
        if last_end == 0 {
            return false;
        }
        entry >= last_start && entry < last_end
    }
}

/// The entry point position lies inside its section: the offset is below the
/// (non-zero) section size, so the offset ratio is in [0, 1).
pub proof fn lemma_entry_position_in_section(secs: Seq<SectionInfo>, entry: u64)
    ensures
        entry_position(secs, entry) matches Some((off, size)) ==> off < size && size > 0,
    decreases secs.len(),
{
    if secs.len() > 0 && !section_holds(secs[0], entry) {
        lemma_entry_position_in_section(secs.drop_first(), entry);
    }
}

} // verus!
