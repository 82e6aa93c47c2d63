//! Dynamic relocation statistics.
use vstd::prelude::*;

use crate::architecture::ArchKind;
use crate::elf_info::ElfInfo;

verus! {

/// Relocation statistics of an ELF file.
#[derive(Debug)]
pub struct RelocationFeature {
    /// Dynamic relocations, with and without addend.
    pub reloc_dyn_count: usize,
    /// PLT relocations.
    pub reloc_plt_count: usize,
    /// Relocations of all three tables whose type is not a standard one for the architecture.
    pub nonstandard_reloc_type_count: usize,
}

/// The relocation types that linkers emit routinely for each architecture.
pub open spec fn spec_standard_types(arch: ArchKind) -> Seq<u32> {
    match arch {
        ArchKind::X86_64 => seq![1u32, 2, 6, 7, 8],
        ArchKind::X86 => seq![1u32, 2, 6, 7, 8],
        ArchKind::Arm64 => seq![257u32, 1025, 1026, 1027],
        ArchKind::Arm => seq![2u32, 21, 22, 23],
        ArchKind::Unsupported => seq![],
    }
}

/// Number of entries of `types` that are not standard for `arch`.
pub open spec fn nonstandard_in(types: Seq<u32>, arch: ArchKind) -> nat
    decreases types.len(),
{
    if types.len() == 0 {
        0
    } else {
        nonstandard_in(types.drop_last(), arch) + if spec_standard_types(arch).contains(types.last()) {
            0nat
        } else {
            1nat
        }
    }
}

proof fn lemma_nonstandard_bound(types: Seq<u32>, arch: ArchKind)
    ensures
        nonstandard_in(types, arch) <= types.len(),
    decreases types.len(),
{
    if types.len() > 0 {
        lemma_nonstandard_bound(types.drop_last(), arch);
    }
}

/// `r` holds the relocation statistics of a parsed ELF file of architecture `arch`.
pub open spec fn is_relocation_of(r: &RelocationFeature, elf: &ElfInfo, arch: ArchKind) -> bool {
    &&& r.reloc_dyn_count == elf.relocs.dynrela@.len() + elf.relocs.dynrel@.len()
    &&& r.reloc_plt_count == elf.relocs.pltreloc@.len()
    &&& r.nonstandard_reloc_type_count == nonstandard_in(elf.relocs.dynrela@, arch)
        + nonstandard_in(elf.relocs.dynrel@, arch) + nonstandard_in(elf.relocs.pltreloc@, arch)
}

impl RelocationFeature {
    /// Relocation statistics of a parsed ELF file of architecture `arch`.
    ///
    /// The table sizes must add up to a `usize`, as the counts are `usize` sums.
    pub fn extract(elf: &ElfInfo, arch: ArchKind) -> (r: Self)
        requires
            elf.relocs.dynrela@.len() + elf.relocs.dynrel@.len() + elf.relocs.pltreloc@.len() <= usize::MAX,
        ensures
            is_relocation_of(&r, elf, arch),
    {
        let standard = Self::standard_reloc_types(arch);
        let a = Self::count_nonstandard(&elf.relocs.dynrela, &standard, arch);
        let b = Self::count_nonstandard(&elf.relocs.dynrel, &standard, arch);
        let c = Self::count_nonstandard(&elf.relocs.pltreloc, &standard, arch);
        RelocationFeature {
            reloc_dyn_count: elf.relocs.dynrela.len() + elf.relocs.dynrel.len(),
            reloc_plt_count: elf.relocs.pltreloc.len(),
            nonstandard_reloc_type_count: a + b + c,
        }
    }

    /// No relocation at all.
    pub fn zero() -> (r: Self)
        ensures
            r.reloc_dyn_count == 0 && r.reloc_plt_count == 0 && r.nonstandard_reloc_type_count == 0,
    {
        RelocationFeature { reloc_dyn_count: 0, reloc_plt_count: 0, nonstandard_reloc_type_count: 0 }
    }

    /// The standard relocation types of `arch`.
    pub fn standard_reloc_types(arch: ArchKind) -> (r: Vec<u32>)
        ensures
            r@ == spec_standard_types(arch),
    {
        match arch {
            ArchKind::X86_64 => vec![1, 2, 6, 7, 8],
            ArchKind::X86 => vec![1, 2, 6, 7, 8],
            ArchKind::Arm64 => vec![257, 1025, 1026, 1027],
            ArchKind::Arm => vec![2, 21, 22, 23],
            ArchKind::Unsupported => vec![],
        }
    }

    fn count_nonstandard(types: &Vec<u32>, standard: &Vec<u32>, arch: ArchKind) -> (r: usize)
        requires
            standard@ == spec_standard_types(arch),
        ensures
            r == nonstandard_in(types@, arch),
            r <= types@.len(),
    {
        let n = types.len();
        let mut count: usize = 0;
        let mut i: usize = 0;
        while i < n
            invariant
                n == types@.len(),
                standard@ == spec_standard_types(arch),
                i <= n,
                count == nonstandard_in(types@.subrange(0, i as int), arch),
                count <= i,
            decreases n - i,
        {
            let t = types[i];
            assert(types@.subrange(0, i + 1).drop_last() == types@.subrange(0, i as int));
            let mut found = false;
            let mut k: usize = 0;
            while k < standard.len()
                invariant
                    k <= standard@.len(),
                    found == exists|j: int| 0 <= j < k && standard@[j] == t,
                decreases standard@.len() - k,
            {
                if standard[k] == t {
                    found = true;
                }
                k += 1;
            }
            if !found {
                count += 1;
            }
            i += 1;
        }
        assert(types@.subrange(0, n as int) == types@);
        proof {
            lemma_nonstandard_bound(types@, arch);
        }
        count
    }
}

/// The relocation types that each architecture's ABI emits routinely:
/// x86-64 `R_X86_64_64` (1), `PC32` (2), `GLOB_DAT` (6), `JUMP_SLOT` (7),
/// `RELATIVE` (8); i386 `R_386_32` (1), `PC32` (2), `GLOB_DAT` (6),
/// `JMP_SLOT` (7), `RELATIVE` (8); AArch64 `ABS64` (257), `GLOB_DAT` (1025),
/// `JUMP_SLOT` (1026), `RELATIVE` (1027); ARM `ABS32` (2), `GLOB_DAT` (21),
/// `JUMP_SLOT` (22), `RELATIVE` (23); none for an unsupported architecture.
pub open spec fn abi_routine_type(arch: ArchKind, t: u32) -> bool {
    match arch {
        ArchKind::X86_64 | ArchKind::X86 => t == 1 || t == 2 || t == 6 || t == 7 || t == 8,
        ArchKind::Arm64 => t == 257 || t == 1025 || t == 1026 || t == 1027,
        ArchKind::Arm => t == 2 || t == 21 || t == 22 || t == 23,
        ArchKind::Unsupported => false,
    }
}

/// The standard types are exactly the ABI's routine ones, so a relocation
/// counts as non-standard exactly when its type is not routine for the
/// architecture: a table of routine types only has no non-standard entry,
/// a table without any has only non-standard entries, and the count of two
/// tables put together is the sum of their counts.
pub proof fn lemma_standard_relocation_types(arch: ArchKind, t: u32, a: Seq<u32>, b: Seq<u32>)
    ensures
        spec_standard_types(arch).contains(t) <==> abi_routine_type(arch, t),
        nonstandard_in(seq![t], arch) == if abi_routine_type(arch, t) { 0nat } else { 1nat },
        (forall|i: int| 0 <= i < a.len() ==> abi_routine_type(arch, #[trigger] a[i])) ==> nonstandard_in(a, arch) == 0,
        (forall|i: int| 0 <= i < a.len() ==> !abi_routine_type(arch, #[trigger] a[i])) ==> nonstandard_in(a, arch) == a.len(),
        nonstandard_in(a + b, arch) == nonstandard_in(a, arch) + nonstandard_in(b, arch),
    decreases b.len(),
{
    lemma_standard_iff_routine(arch, t);
    assert(seq![t].drop_last() =~= Seq::<u32>::empty());
    assert(seq![t].last() == t);
    assert(nonstandard_in(Seq::<u32>::empty(), arch) == 0);
    lemma_all_routine(arch, a);
    if b.len() > 0 {
        lemma_standard_relocation_types(arch, t, a, b.drop_last());
        assert((a + b).drop_last() =~= a + b.drop_last());
        assert((a + b).last() == b.last());
    } else {
        assert(a + b =~= a);
    }
}

proof fn lemma_standard_iff_routine(arch: ArchKind, t: u32)
    ensures
        spec_standard_types(arch).contains(t) <==> abi_routine_type(arch, t),
{
    let s = spec_standard_types(arch);
    if abi_routine_type(arch, t) {
        match arch {
            ArchKind::X86_64 | ArchKind::X86 => {
                if t == 1 { assert(s[0] == t); } else if t == 2 { assert(s[1] == t); } else if t == 6 { assert(s[2] == t); }
                else if t == 7 { assert(s[3] == t); } else { assert(s[4] == t); }
            },
            ArchKind::Arm64 => {
                if t == 257 { assert(s[0] == t); } else if t == 1025 { assert(s[1] == t); } else if t == 1026 { assert(s[2] == t); }
                else { assert(s[3] == t); }
            },
            ArchKind::Arm => {
                if t == 2 { assert(s[0] == t); } else if t == 21 { assert(s[1] == t); } else if t == 22 { assert(s[2] == t); }
                else { assert(s[3] == t); }
            },
            ArchKind::Unsupported => {},
        }
    }
    if s.contains(t) {
        let i = choose|i: int| 0 <= i < s.len() && s[i] == t;
        assert(abi_routine_type(arch, s[i]));
    }
}

proof fn lemma_all_routine(arch: ArchKind, a: Seq<u32>)
    ensures
        (forall|i: int| 0 <= i < a.len() ==> abi_routine_type(arch, #[trigger] a[i])) ==> nonstandard_in(a, arch) == 0,
        (forall|i: int| 0 <= i < a.len() ==> !abi_routine_type(arch, #[trigger] a[i])) ==> nonstandard_in(a, arch) == a.len(),
    decreases a.len(),
{
    if a.len() > 0 {
        lemma_all_routine(arch, a.drop_last());
        lemma_standard_iff_routine(arch, a.last());
        assert(forall|i: int| 0 <= i < a.drop_last().len() ==> a.drop_last()[i] == a[i]);
        assert(a.last() == a[a.len() - 1]);
    }
}

/// A file all of whose relocations have types routine for its architecture
/// has no non-standard relocation; one none of whose relocations does has
/// only non-standard ones.
pub proof fn lemma_relocation_feature_routine(r: &RelocationFeature, elf: &ElfInfo, arch: ArchKind)
    requires
        is_relocation_of(r, elf, arch),
    ensures
        (forall|i: int| 0 <= i < elf.relocs.dynrela@.len() ==> abi_routine_type(arch, #[trigger] elf.relocs.dynrela@[i]))
            && (forall|i: int| 0 <= i < elf.relocs.dynrel@.len() ==> abi_routine_type(arch, #[trigger] elf.relocs.dynrel@[i]))
            && (forall|i: int| 0 <= i < elf.relocs.pltreloc@.len() ==> abi_routine_type(arch, #[trigger] elf.relocs.pltreloc@[i]))
            ==> r.nonstandard_reloc_type_count == 0,
        (forall|i: int| 0 <= i < elf.relocs.dynrela@.len() ==> !abi_routine_type(arch, #[trigger] elf.relocs.dynrela@[i]))
            && (forall|i: int| 0 <= i < elf.relocs.dynrel@.len() ==> !abi_routine_type(arch, #[trigger] elf.relocs.dynrel@[i]))
            && (forall|i: int| 0 <= i < elf.relocs.pltreloc@.len() ==> !abi_routine_type(arch, #[trigger] elf.relocs.pltreloc@[i]))
            ==> r.nonstandard_reloc_type_count == r.reloc_dyn_count + r.reloc_plt_count,
{
    lemma_all_routine(arch, elf.relocs.dynrela@);
    lemma_all_routine(arch, elf.relocs.dynrel@);
    lemma_all_routine(arch, elf.relocs.pltreloc@);
}

} // verus!
