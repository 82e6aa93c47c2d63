//! Section and segment layout statistics.
use vstd::prelude::*;

use crate::elf_info::{ElfInfo, SectionInfo};
use crate::metadata::SHF_ALLOC;

verus! {

/// Section flag `SHF_WRITE`.
pub const SHF_WRITE: u64 = 1;
/// Section flag `SHF_EXECINSTR`.
pub const SHF_EXECINSTR: u64 = 4;
/// Section type `SHT_NOBITS`: occupies no space in the file.
pub const SHT_NOBITS: u32 = 8;
/// Segment flag `PF_X`.
pub const PF_X: u32 = 1;
/// Segment flag `PF_W`.
pub const PF_W: u32 = 2;

/// Layout statistics of an ELF file.
///
/// The section entropies of the CSV feature set are those of the byte
/// ranges in `entropy_ranges`; the code to data ratio is `code_size / data_size`,
/// or `code_size` when `data_size` is 0.
#[derive(Debug)]
pub struct StructuralFeature {
    pub section_count: usize,
    pub segment_count: usize,
    /// Non-empty sections both writable and executable.
    pub rwx_section_count: usize,
    /// Segments both writable and executable.
    pub wx_segment_count: usize,
    /// Sections of size 0 or of type `SHT_NOBITS`.
    pub empty_section_count: usize,
    /// Total size of the non-empty allocated executable sections.
    pub code_size: u128,
    /// Total size of the non-empty allocated non-executable sections.
    pub data_size: u128,
    /// (file offset, size) of each non-empty section that lies inside the file, in header order.
    pub entropy_ranges: Vec<(usize, usize)>,
}

/// The section has no bytes in the file.
pub open spec fn is_empty_section(s: SectionInfo) -> bool {
    s.sh_size == 0 || s.sh_type == SHT_NOBITS
}

/// (empty sections, writable and executable sections, code size, data size) of `secs`.
pub open spec fn section_stats(secs: Seq<SectionInfo>) -> (nat, nat, int, int)
    decreases secs.len(),
{
    if secs.len() == 0 {
        (0, 0, 0, 0)
    } else {
        let (e, w, c, d) = section_stats(secs.drop_last());
        let s = secs.last();
        if is_empty_section(s) {
            ((e + 1) as nat, w, c, d)
        } else {
            let writable = s.sh_flags & SHF_WRITE != 0;
            let exec = s.sh_flags & SHF_EXECINSTR != 0;
            let alloc = s.sh_flags & SHF_ALLOC != 0;
            (
                e,
                if writable && exec { (w + 1) as nat } else { w },
                if alloc && exec { c + s.sh_size } else { c },
                if alloc && !exec { d + s.sh_size } else { d },
            )
        }
    }
}

/// The byte ranges of the non-empty sections that lie inside a file of `len` bytes.
pub open spec fn entropy_ranges_of(secs: Seq<SectionInfo>, len: int) -> Seq<(usize, usize)>
    decreases secs.len(),
{
    if secs.len() == 0 {
        seq![]
    } else {
        let prev = entropy_ranges_of(secs.drop_last(), len);
        let s = secs.last();
        if !is_empty_section(s) && s.sh_offset.saturating_add(s.sh_size) <= len {
            prev.push((s.sh_offset as usize, s.sh_size as usize))
        } else {
            prev
        }
    }
}

/// Number of segment flag words with both `PF_W` and `PF_X`.
pub open spec fn wx_count(flags: Seq<u32>) -> nat
    decreases flags.len(),
{
    if flags.len() == 0 {
        0
    } else {
        wx_count(flags.drop_last()) + if flags.last() & (PF_W | PF_X) == (PF_W | PF_X) {
            1nat
        } else {
            0nat
        }
    }
}

proof fn lemma_section_stats_bound(secs: Seq<SectionInfo>)
    ensures
        section_stats(secs).0 + section_stats(secs).1 <= secs.len(),
        0 <= section_stats(secs).2 <= secs.len() * 0xffff_ffff_ffff_ffff,
        0 <= section_stats(secs).3 <= secs.len() * 0xffff_ffff_ffff_ffff,
    decreases secs.len(),
{
    if secs.len() > 0 {
        lemma_section_stats_bound(secs.drop_last());
        assert(secs.drop_last().len() * 0xffff_ffff_ffff_ffff + 0xffff_ffff_ffff_ffff == secs.len() * 0xffff_ffff_ffff_ffff) by (nonlinear_arith)
            requires
                secs.drop_last().len() + 1 == secs.len(),
        ;
    }
}

proof fn lemma_wx_bound(flags: Seq<u32>)
    ensures
        wx_count(flags) <= flags.len(),
    decreases flags.len(),
{
    if flags.len() > 0 {
        lemma_wx_bound(flags.drop_last());
    }
}

/// `f` holds the layout statistics of the file `data`, parsed as `elf`.
pub open spec fn is_structural_of(f: &StructuralFeature, data: Seq<u8>, elf: &ElfInfo) -> bool {
    let (e, w, c, d) = section_stats(elf.sections@);
    &&& f.section_count == elf.sections@.len()
    &&& f.segment_count == elf.segment_flags@.len()
    &&& f.wx_segment_count == wx_count(elf.segment_flags@)
    &&& f.empty_section_count == e
    &&& f.rwx_section_count == w
    &&& f.code_size == c
    &&& f.data_size == d
    &&& f.entropy_ranges@ == entropy_ranges_of(elf.sections@, data.len() as int)
}

impl StructuralFeature {
    /// Layout statistics of the file `raw_data`, parsed as `elf`. Never fails.
    pub fn extract(raw_data: &[u8], elf: &ElfInfo) -> (r: Result<Self, String>)
        ensures
            r matches Ok(f) && is_structural_of(&f, raw_data@, elf),
    {
        let nseg = elf.segment_flags.len();
        let mut wx: usize = 0;
        let mut j: usize = 0;
        while j < nseg
            invariant
                nseg == elf.segment_flags@.len(),
                j <= nseg,
                wx == wx_count(elf.segment_flags@.subrange(0, j as int)),
                wx <= j,
            decreases nseg - j,
        {
            assert(elf.segment_flags@.subrange(0, j + 1).drop_last() == elf.segment_flags@.subrange(0, j as int));
            if elf.segment_flags[j] & (PF_W | PF_X) == (PF_W | PF_X) {
                wx += 1;
            }
            j += 1;
        }
        assert(elf.segment_flags@.subrange(0, nseg as int) == elf.segment_flags@);

        let n = elf.sections.len();
        let len = raw_data.len();
        let mut empty: usize = 0;
        let mut rwx: usize = 0;
        let mut code: u128 = 0;
        let mut data: u128 = 0;
        let mut ranges: Vec<(usize, usize)> = Vec::new();
        let mut i: usize = 0;
        while i < n
            invariant
                n == elf.sections@.len(),
                len == raw_data@.len(),
                i <= n,
                (empty as nat, rwx as nat, code as int, data as int) == section_stats(elf.sections@.subrange(0, i as int)),
                ranges@ == entropy_ranges_of(elf.sections@.subrange(0, i as int), len as int),
            decreases n - i,
        {
            let s = &elf.sections[i];
            proof {
                assert(elf.sections@.subrange(0, i + 1).drop_last() == elf.sections@.subrange(0, i as int));
                lemma_section_stats_bound(elf.sections@.subrange(0, i as int));
                assert(i * 0xffff_ffff_ffff_ffffint + 0xffff_ffff_ffff_ffffint <= u128::MAX) by (nonlinear_arith)
                    requires
                        i < n,
                        n <= usize::MAX,
                ;
            }
            if s.sh_size == 0 || s.sh_type == SHT_NOBITS {
                empty += 1;
            } else {
                let writable = s.sh_flags & SHF_WRITE != 0;
                let exec = s.sh_flags & SHF_EXECINSTR != 0;
                if writable && exec {
                    rwx += 1;
                }
                if s.sh_flags & SHF_ALLOC != 0 {
                    if exec {
                        code = code + s.sh_size as u128;
                    } else {
                        data = data + s.sh_size as u128;
                    }
                }
                if s.sh_offset.saturating_add(s.sh_size) <= len as u64 {
                    ranges.push((s.sh_offset as usize, s.sh_size as usize));
                }
            }
            i += 1;
        }
        assert(elf.sections@.subrange(0, n as int) == elf.sections@);
        Ok(StructuralFeature {
            section_count: n,
            segment_count: nseg,
            rwx_section_count: rwx,
            wx_segment_count: wx,
            empty_section_count: empty,
            code_size: code,
            data_size: data,
            entropy_ranges: ranges,
        })
    }

    /// The statistics of a file without usable sections or segments.
    pub fn empty() -> (r: Self)
        ensures
            r.section_count == 0 && r.segment_count == 0 && r.rwx_section_count == 0
                && r.wx_segment_count == 0 && r.empty_section_count == 0 && r.code_size == 0
                && r.data_size == 0 && r.entropy_ranges@.len() == 0,
    {
        StructuralFeature {
            section_count: 0,
            segment_count: 0,
            rwx_section_count: 0,
            wx_segment_count: 0,
            empty_section_count: 0,
            code_size: 0,
            data_size: 0,
            entropy_ranges: Vec::new(),
        }
    }
}

} // verus!
