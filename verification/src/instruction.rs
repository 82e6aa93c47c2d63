//! Instruction mix of the executable sections, disassembled with `capstone`.
use capstone::arch::BuildsCapstone;
use capstone::Capstone;
use vstd::prelude::*;
use vstd::string::StringSliceAdditionalSpecFns;

use crate::architecture::ArchKind;
use crate::elf_info::{ElfInfo, SectionInfo};
use crate::extraction_warnings::{ExtractionWarning, WarningLog};
use crate::structural::SHF_EXECINSTR;
use crate::text::{bytes_eq, decimal};

verus! {

#[verifier::external_type_specification]
#[verifier::external_body]
pub struct ExCapstone(Capstone);

/// The family an instruction belongs to.
#[derive(Debug, Clone, Copy, PartialEq, Eq, Structural)]
pub enum Category {
    Mov,
    Arithmetic,
    Logic,
    ControlFlow,
    System,
    Other,
}

pub const X86_MOV: [&'static str; 6] = ["mov", "movzx", "movsx", "lea", "push", "pop"];
pub const X86_ARITHMETIC: [&'static str; 8] = ["add", "sub", "mul", "imul", "div", "idiv", "inc", "dec"];
pub const X86_LOGIC: [&'static str; 9] = ["and", "or", "xor", "not", "shl", "shr", "sar", "rol", "ror"];
pub const X86_CONTROL: [&'static str; 12] = ["jmp", "je", "jne", "jz", "jnz", "jg", "jl", "jge", "jle", "call", "ret", "loop"];
pub const X86_SYSTEM: [&'static str; 5] = ["syscall", "sysenter", "int", "in", "out"];

pub const ARM_MOV: [&'static str; 14] = [
    "mov", "movw", "movt", "mvn", "ldr", "str", "ldm", "stm", "push", "pop", "ldrb", "strb", "ldrh", "strh",
];
pub const ARM_ARITHMETIC: [&'static str; 9] = ["add", "sub", "mul", "mla", "sdiv", "udiv", "adc", "sbc", "rsb"];
pub const ARM_LOGIC: [&'static str; 8] = ["and", "orr", "eor", "bic", "lsl", "lsr", "asr", "ror"];
pub const ARM_CONTROL: [&'static str; 6] = ["b", "bl", "bx", "blx", "cbz", "cbnz"];
pub const ARM_SYSTEM: [&'static str; 4] = ["svc", "swi", "mrc", "mcr"];

pub const ARM64_MOV: [&'static str; 16] = [
    "mov", "movz", "movn", "movk", "ldr", "str", "ldp", "stp", "ldur", "stur", "adr", "adrp", "ldrb", "strb", "ldrh", "strh",
];
pub const ARM64_ARITHMETIC: [&'static str; 9] = ["add", "sub", "mul", "madd", "msub", "sdiv", "udiv", "adc", "sbc"];
pub const ARM64_LOGIC: [&'static str; 9] = ["and", "orr", "eor", "mvn", "bic", "lsl", "lsr", "asr", "ror"];
pub const ARM64_CONTROL: [&'static str; 9] = ["b", "bl", "br", "blr", "ret", "cbz", "cbnz", "tbz", "tbnz"];
pub const ARM64_SYSTEM: [&'static str; 4] = ["svc", "hvc", "smc", "brk"];

/// `m` is the UTF-8 encoding of one of the words of `list`.
pub open spec fn listed(m: Seq<u8>, list: Seq<&str>) -> bool {
    exists|k: int| 0 <= k < list.len() && #[trigger] list[k].spec_bytes() == m
}

pub open spec fn spec_categorize_x86(m: Seq<u8>) -> Category {
    if listed(m, X86_MOV@) {
        Category::Mov
    } else if listed(m, X86_ARITHMETIC@) {
        Category::Arithmetic
    } else if listed(m, X86_LOGIC@) {
        Category::Logic
    } else if listed(m, X86_CONTROL@) {
        Category::ControlFlow
    } else if listed(m, X86_SYSTEM@) {
        Category::System
    } else {
        Category::Other
    }
}

pub open spec fn spec_categorize_arm(m: Seq<u8>) -> Category {
    if listed(m, ARM_MOV@) {
        Category::Mov
    } else if listed(m, ARM_ARITHMETIC@) {
        Category::Arithmetic
    } else if listed(m, ARM_LOGIC@) {
        Category::Logic
    } else if listed(m, ARM_CONTROL@) {
        Category::ControlFlow
    } else if listed(m, ARM_SYSTEM@) {
        Category::System
    } else {
        Category::Other
    }
}

/// Conditional branches `b.<cond>` of AArch64.
pub open spec fn is_conditional_branch(m: Seq<u8>) -> bool {
    m.len() >= 2 && m[0] == 98 && m[1] == 46
}

pub open spec fn spec_categorize_arm64(m: Seq<u8>) -> Category {
    if is_conditional_branch(m) {
        Category::ControlFlow
    } else if listed(m, ARM64_MOV@) {
        Category::Mov
    } else if listed(m, ARM64_ARITHMETIC@) {
        Category::Arithmetic
    } else if listed(m, ARM64_LOGIC@) {
        Category::Logic
    } else if listed(m, ARM64_CONTROL@) {
        Category::ControlFlow
    } else if listed(m, ARM64_SYSTEM@) {
        Category::System
    } else {
        Category::Other
    }
}

/// Family of the lower-case mnemonic `m` on `arch`.
pub open spec fn spec_categorize(m: Seq<u8>, arch: ArchKind) -> Category {
    match arch {
        ArchKind::X86 | ArchKind::X86_64 => spec_categorize_x86(m),
        ArchKind::Arm => spec_categorize_arm(m),
        ArchKind::Arm64 => spec_categorize_arm64(m),
        ArchKind::Unsupported => Category::Other,
    }
}

/// Whether `m` is one of the words of `list`.
fn in_list(m: &[u8], list: &[&str]) -> (r: bool)
    ensures
        r == listed(m@, list@),
{
    let mut k: usize = 0;
    while k < list.len()
        invariant
            k <= list@.len(),
            forall|j: int| 0 <= j < k ==> #[trigger] list@[j].spec_bytes() != m@,
        decreases list@.len() - k,
    {
        if bytes_eq(list[k].as_bytes(), m) {
            return true;
        }
        k += 1;
    }
    false
}

impl InstructionFeature {
    /// Family of the lower-case mnemonic `mnemonic` on `arch`.
    fn categorize(mnemonic: &[u8], arch: ArchKind) -> (r: Category)
        ensures
            r == spec_categorize(mnemonic@, arch),
    {
        match arch {
            ArchKind::X86 | ArchKind::X86_64 => Self::categorize_x86(mnemonic),
            ArchKind::Arm => Self::categorize_arm(mnemonic),
            ArchKind::Arm64 => Self::categorize_arm64(mnemonic),
            ArchKind::Unsupported => Category::Other,
        }
    }

    fn categorize_x86(m: &[u8]) -> (r: Category)
        ensures
            r == spec_categorize_x86(m@),
    {
        if in_list(m, X86_MOV.as_slice()) {
            Category::Mov
        } else if in_list(m, X86_ARITHMETIC.as_slice()) {
            Category::Arithmetic
        } else if in_list(m, X86_LOGIC.as_slice()) {
            Category::Logic
        } else if in_list(m, X86_CONTROL.as_slice()) {
            Category::ControlFlow
        } else if in_list(m, X86_SYSTEM.as_slice()) {
            Category::System
        } else {
            Category::Other
        }
    }

    fn categorize_arm(m: &[u8]) -> (r: Category)
        ensures
            r == spec_categorize_arm(m@),
    {
        if in_list(m, ARM_MOV.as_slice()) {
            Category::Mov
        } else if in_list(m, ARM_ARITHMETIC.as_slice()) {
            Category::Arithmetic
        } else if in_list(m, ARM_LOGIC.as_slice()) {
            Category::Logic
        } else if in_list(m, ARM_CONTROL.as_slice()) {
            Category::ControlFlow
        } else if in_list(m, ARM_SYSTEM.as_slice()) {
            Category::System
        } else {
            Category::Other
        }
    }

    fn categorize_arm64(m: &[u8]) -> (r: Category)
        ensures
            r == spec_categorize_arm64(m@),
    {
        if m.len() >= 2 && m[0] == 98 && m[1] == 46 {
            Category::ControlFlow
        } else if in_list(m, ARM64_MOV.as_slice()) {
            Category::Mov
        } else if in_list(m, ARM64_ARITHMETIC.as_slice()) {
            Category::Arithmetic
        } else if in_list(m, ARM64_LOGIC.as_slice()) {
            Category::Logic
        } else if in_list(m, ARM64_CONTROL.as_slice()) {
            Category::ControlFlow
        } else if in_list(m, ARM64_SYSTEM.as_slice()) {
            Category::System
        } else {
            Category::Other
        }
    }
}

/// Instruction counts of the executable sections of an ELF file.
///
/// The ratios of the CSV feature set are each family count divided by
/// `total`; the instruction density is `total` divided by the file size.
#[derive(Debug)]
pub struct InstructionFeature {
    pub total: u128,
    pub mov_count: u128,
    pub arithmetic_count: u128,
    pub logic_count: u128,
    pub control_flow_count: u128,
    pub system_count: u128,
    /// Executable sections that the disassembler refused.
    pub sections_failed: u128,
}

/// A disassembler set up for one architecture.
pub struct Disassembler {
    arch: ArchKind,
    cs: Capstone,
}

impl Disassembler {
    /// The architecture the disassembler was set up for.
    pub closed spec fn arch(&self) -> ArchKind {
        self.arch
    }

    /// A disassembler for `arch`; none for an unsupported architecture.
    pub fn for_arch(arch: ArchKind) -> (r: Option<Disassembler>)
        ensures
            r is Some <==> arch != ArchKind::Unsupported,
            r matches Some(d) ==> d.arch() == arch,
    {
        let cs = match arch {
            ArchKind::X86_64 => capstone_x86_64(),
            ArchKind::X86 => capstone_x86(),
            ArchKind::Arm64 => capstone_arm64(),
            ArchKind::Arm => capstone_arm(),
            ArchKind::Unsupported => None,
        };
        match cs {
            Some(cs) => Some(Disassembler { arch, cs }),
            None => None,
        }
    }
}

/// `Capstone::new().x86().mode(Mode64).build()`.
///
/// Trusted: it succeeds. With capstone's default features every architecture
/// is compiled in, the mode is one the architecture allows, and `cs_open`
/// fails then only when the C allocator returns no memory, a machine limit
/// left out as it is for every allocation.
#[verifier::external_body]
fn capstone_x86_64() -> (r: Option<Capstone>)
    ensures
        r is Some,
{
    Capstone::new().x86().mode(capstone::arch::x86::ArchMode::Mode64).build().ok()
}

/// `Capstone::new().x86().mode(Mode32).build()`.
///
/// Trusted: it succeeds. With capstone's default features every architecture
/// is compiled in, the mode is one the architecture allows, and `cs_open`
/// fails then only when the C allocator returns no memory, a machine limit
/// left out as it is for every allocation.
#[verifier::external_body]
fn capstone_x86() -> (r: Option<Capstone>)
    ensures
        r is Some,
{
    Capstone::new().x86().mode(capstone::arch::x86::ArchMode::Mode32).build().ok()
}

/// `Capstone::new().arm64().mode(Arm).build()`.
///
/// Trusted: it succeeds. With capstone's default features every architecture
/// is compiled in, the mode is one the architecture allows, and `cs_open`
/// fails then only when the C allocator returns no memory, a machine limit
/// left out as it is for every allocation.
#[verifier::external_body]
fn capstone_arm64() -> (r: Option<Capstone>)
    ensures
        r is Some,
{
    Capstone::new().arm64().mode(capstone::arch::arm64::ArchMode::Arm).build().ok()
}

/// `Capstone::new().arm().mode(Arm).build()`.
///
/// Trusted: it succeeds. With capstone's default features every architecture
/// is compiled in, the mode is one the architecture allows, and `cs_open`
/// fails then only when the C allocator returns no memory, a machine limit
/// left out as it is for every allocation.
#[verifier::external_body]
fn capstone_arm() -> (r: Option<Capstone>)
    ensures
        r is Some,
{
    Capstone::new().arm().mode(capstone::arch::arm::ArchMode::Arm).build().ok()
}

/// The mnemonics (each possibly missing) that capstone, set up for `arch`,
/// gives when it disassembles all of `code` loaded at `addr`; `None` when it
/// reports an error.
pub uninterp spec fn capstone_mnemonics(arch: ArchKind, code: Seq<u8>, addr: u64) -> Option<Seq<Option<Seq<u8>>>>;

/// The bytes of an optional mnemonic.
pub open spec fn mnemonic_view(m: Option<Vec<u8>>) -> Option<Seq<u8>> {
    match m {
        Some(v) => Some(v@),
        None => None,
    }
}

/// The mnemonics of a disassembly, by views.
pub open spec fn listing_view(r: Option<Vec<Option<Vec<u8>>>>) -> Option<Seq<Option<Seq<u8>>>> {
    match r {
        Some(v) => Some(v@.map_values(|m: Option<Vec<u8>>| mnemonic_view(m))),
        None => None,
    }
}

/// `Capstone::disasm_all` of `code` at `addr`, then `Insn::mnemonic` of each instruction.
///
/// Trusted: the result, by views, is `capstone_mnemonics(arch, code, addr)`
/// for the architecture the disassembler was set up for; `Disassembler::for_arch` is
/// the only place that builds a `Disassembler`.
#[verifier::external_body]
fn disasm_mnemonics(d: &Disassembler, code: &[u8], addr: u64) -> (r: Option<Vec<Option<Vec<u8>>>>)
    ensures
        listing_view(r) == capstone_mnemonics(d.arch(), code@, addr),
{
    match d.cs.disasm_all(code, addr) {
        Ok(insns) => Some(insns.iter().map(|i| i.mnemonic().map(|m| m.as_bytes().to_vec())).collect()),
        Err(_) => None,
    }
}

/// The lower-case mnemonic, empty when capstone gives none.
pub open spec fn lowered(m: Option<Seq<u8>>) -> Seq<u8> {
    match m {
        Some(b) => b.map_values(|x: u8| crate::text::ascii_lower_byte(x)),
        None => seq![],
    }
}

/// (instructions, mov, arithmetic, logic, control flow, system) of a listing.
pub open spec fn listing_counts(ms: Seq<Option<Seq<u8>>>, arch: ArchKind) -> (int, int, int, int, int, int)
    decreases ms.len(),
{
    if ms.len() == 0 {
        (0, 0, 0, 0, 0, 0)
    } else {
        let (t, a, b, c, d, e) = listing_counts(ms.drop_last(), arch);
        let cat = spec_categorize(lowered(ms.last()), arch);
        (
            t + 1,
            if cat == Category::Mov { a + 1 } else { a },
            if cat == Category::Arithmetic { b + 1 } else { b },
            if cat == Category::Logic { c + 1 } else { c },
            if cat == Category::ControlFlow { d + 1 } else { d },
            if cat == Category::System { e + 1 } else { e },
        )
    }
}

/// The bytes [start, end) of a non-empty executable section, cut at the end
/// of a file of `len` bytes; `None` when nothing of it lies in the file.
pub open spec fn exec_region(s: SectionInfo, len: int) -> Option<(int, int)> {
    if s.sh_flags & SHF_EXECINSTR == 0 || s.sh_size == 0 {
        None
    } else {
        let sat = s.sh_offset.saturating_add(s.sh_size) as int;
        let end = if sat < len { sat } else { len };
        if (s.sh_offset as int) < end {
            Some((s.sh_offset as int, end))
        } else {
            None
        }
    }
}

/// (instructions, mov, arithmetic, logic, control flow, system, refused
/// sections) of the executable sections among `secs`.
pub open spec fn section_counts(secs: Seq<SectionInfo>, data: Seq<u8>, arch: ArchKind) -> (int, int, int, int, int, int, int)
    decreases secs.len(),
{
    if secs.len() == 0 {
        (0, 0, 0, 0, 0, 0, 0)
    } else {
        let prev = section_counts(secs.drop_last(), data, arch);
        let s = secs.last();
        match exec_region(s, data.len() as int) {
            None => prev,
            Some((o, e)) => match capstone_mnemonics(arch, data.subrange(o, e), s.sh_addr) {
                Some(ms) => {
                    let c = listing_counts(ms, arch);
                    (prev.0 + c.0, prev.1 + c.1, prev.2 + c.2, prev.3 + c.3, prev.4 + c.4, prev.5 + c.5, prev.6)
                },
                None => (prev.0, prev.1, prev.2, prev.3, prev.4, prev.5, prev.6 + 1),
            },
        }
    }
}

proof fn lemma_listing_bound(ms: Seq<Option<Seq<u8>>>, arch: ArchKind)
    ensures
        ({
            let c = listing_counts(ms, arch);
            &&& c.0 == ms.len()
            &&& 0 <= c.1 <= c.0 && 0 <= c.2 <= c.0 && 0 <= c.3 <= c.0 && 0 <= c.4 <= c.0 && 0 <= c.5 <= c.0
        }),
    decreases ms.len(),
{
    if ms.len() > 0 {
        lemma_listing_bound(ms.drop_last(), arch);
    }
}

/// The feature with every count 0.
pub open spec fn is_zero(f: &InstructionFeature) -> bool {
    f.total == 0 && f.mov_count == 0 && f.arithmetic_count == 0 && f.logic_count == 0
        && f.control_flow_count == 0 && f.system_count == 0 && f.sections_failed == 0
}

/// `f` holds the counts `c` of `section_counts`.
pub open spec fn has_counts(f: &InstructionFeature, c: (int, int, int, int, int, int, int)) -> bool {
    f.total == c.0 && f.mov_count == c.1 && f.arithmetic_count == c.2 && f.logic_count == c.3
        && f.control_flow_count == c.4 && f.system_count == c.5 && f.sections_failed == c.6
}

/// The warning when no disassembler is available for `arch`.
pub open spec fn unsupported_warning(arch: ArchKind) -> (Seq<char>, Seq<char>) {
    ("instruction"@, "nessun supporto capstone per "@ + crate::architecture::spec_arch_name(arch) + ", feature azzerate"@)
}

/// The warning about `failed` sections the disassembler refused.
pub open spec fn failed_warning(failed: int) -> (Seq<char>, Seq<char>) {
    ("instruction"@, crate::text::spec_decimal(failed as nat) + " sezioni eseguibili non disassemblabili, saltate"@)
}

/// The warnings about refused sections: one when there are any.
pub open spec fn failed_warnings(failed: int) -> Seq<(Seq<char>, Seq<char>)> {
    if failed > 0 {
        seq![failed_warning(failed)]
    } else {
        seq![]
    }
}

impl InstructionFeature {
    /// All counts 0.
    pub fn zero() -> (r: Self)
        ensures
            is_zero(&r),
    {
        InstructionFeature {
            total: 0,
            mov_count: 0,
            arithmetic_count: 0,
            logic_count: 0,
            control_flow_count: 0,
            system_count: 0,
            sections_failed: 0,
        }
    }

    /// Counts of one disassembly listing.
    fn count_listing(ms: &Vec<Option<Vec<u8>>>, arch: ArchKind) -> (r: (usize, usize, usize, usize, usize, usize))
        ensures
            (r.0 as int, r.1 as int, r.2 as int, r.3 as int, r.4 as int, r.5 as int)
                == listing_counts(ms@.map_values(|m: Option<Vec<u8>>| mnemonic_view(m)), arch),
    {
        let ghost view = ms@.map_values(|m: Option<Vec<u8>>| mnemonic_view(m));
        let (mut t, mut a, mut b, mut c, mut d, mut e) = (0usize, 0usize, 0usize, 0usize, 0usize, 0usize);
        let mut i: usize = 0;
        while i < ms.len()
            invariant
                i <= ms@.len(),
                view == ms@.map_values(|m: Option<Vec<u8>>| mnemonic_view(m)),
                (t as int, a as int, b as int, c as int, d as int, e as int) == listing_counts(view.take(i as int), arch),
                t == i,
            decreases ms@.len() - i,
        {
            proof {
                assert(view.take(i + 1).drop_last() == view.take(i as int));
                lemma_listing_bound(view.take(i as int), arch);
            }
            let lower = match &ms[i] {
                Some(m) => crate::text::ascii_lowercase(m.as_slice()),
                None => Vec::new(),
            };
            assert(lower@ == lowered(view.take(i + 1).last()));
            match Self::categorize(lower.as_slice(), arch) {
                Category::Mov => a += 1,
                Category::Arithmetic => b += 1,
                Category::Logic => c += 1,
                Category::ControlFlow => d += 1,
                Category::System => e += 1,
                Category::Other => {},
            }
            t += 1;
            i += 1;
        }
        assert(view.take(ms@.len() as int) == view);
        (t, a, b, c, d, e)
    }
    /// Instruction counts of the executable sections of the file `raw_data`,
    /// parsed as `elf`, for `arch`. Never fails: for an unsupported
    /// architecture the counts are 0 and a warning is logged; otherwise the
    /// counts are those of `count_sections`.
    pub fn extract(elf: &ElfInfo, raw_data: &[u8], arch: ArchKind, log: &mut WarningLog) -> (r: Self)
        ensures
            ({
                let before = old(log).warnings@.map_values(|w: ExtractionWarning| crate::extraction_warnings::warning_view(w));
                let after = final(log).warnings@.map_values(|w: ExtractionWarning| crate::extraction_warnings::warning_view(w));
                let c = section_counts(elf.sections@, raw_data@, arch);
                &&& arch == ArchKind::Unsupported ==> is_zero(&r) && after == before.push(unsupported_warning(arch))
                &&& arch != ArchKind::Unsupported ==> has_counts(&r, c) && after == before + failed_warnings(c.6)
            }),
    {
        let ghost before = log.warnings@.map_values(|w: ExtractionWarning| crate::extraction_warnings::warning_view(w));
        match Disassembler::for_arch(arch) {
            Some(cs) => Self::count_sections(&cs, elf, raw_data, log),
            None => {
                let mut m = String::from_str("nessun supporto capstone per ");
                m.append(arch.name());
                m.append(", feature azzerate");
                log.push("instruction", m);
                assert(log.warnings@.map_values(|w: ExtractionWarning| crate::extraction_warnings::warning_view(w))
                    =~= before.push(unsupported_warning(arch)));
                Self::zero()
            },
        }
    }

    /// Instruction counts of the executable sections of the file `raw_data`,
    /// parsed as `elf`, disassembled by `cs`. Sections that do not
    /// disassemble are counted as refused and reported in one warning.
    pub fn count_sections(cs: &Disassembler, elf: &ElfInfo, raw_data: &[u8], log: &mut WarningLog) -> (r: Self)
        ensures
            ({
                let c = section_counts(elf.sections@, raw_data@, cs.arch());
                &&& has_counts(&r, c)
                &&& final(log).warnings@.map_values(|w: ExtractionWarning| crate::extraction_warnings::warning_view(w))
                    == old(log).warnings@.map_values(|w: ExtractionWarning| crate::extraction_warnings::warning_view(w))
                    + failed_warnings(c.6)
            }),
    {
        let arch = cs.arch;
        let ghost before = log.warnings@.map_values(|w: ExtractionWarning| crate::extraction_warnings::warning_view(w));
        let len = raw_data.len();
        let n = elf.sections.len();
        let mut f = Self::zero();
        let mut i: usize = 0;
        while i < n
            invariant
                n == elf.sections@.len(),
                len == raw_data@.len(),
                i <= n,
                cs.arch() == arch,
                has_counts(&f, section_counts(elf.sections@.subrange(0, i as int), raw_data@, arch)),
                f.total <= i * 0xffff_ffff_ffff_ffffint,
                f.mov_count <= f.total && f.arithmetic_count <= f.total && f.logic_count <= f.total
                    && f.control_flow_count <= f.total && f.system_count <= f.total,
                f.sections_failed <= i,
            decreases n - i,
        {
            let s = &elf.sections[i];
            proof {
                assert(elf.sections@.subrange(0, i + 1).drop_last() == elf.sections@.subrange(0, i as int));
                assert(i * 0xffff_ffff_ffff_ffffint + 0xffff_ffff_ffff_ffffint <= u128::MAX) by (nonlinear_arith)
                    requires
                        i < n,
                        n <= usize::MAX,
                ;
                assert((i + 1) * 0xffff_ffff_ffff_ffffint == i * 0xffff_ffff_ffff_ffffint + 0xffff_ffff_ffff_ffffint) by (nonlinear_arith);
            }
            if s.sh_flags & SHF_EXECINSTR != 0 && s.sh_size != 0 {
                let sat = s.sh_offset.saturating_add(s.sh_size);
                let end = if sat < len as u64 { sat } else { len as u64 };
                if s.sh_offset < end {
                    let code = &raw_data[s.sh_offset as usize..end as usize];
                    match disasm_mnemonics(cs, code, s.sh_addr) {
                        Some(ms) => {
                            let (t, a, b, c, d, e) = Self::count_listing(&ms, arch);
                            proof {
                                lemma_listing_bound(ms@.map_values(|m: Option<Vec<u8>>| mnemonic_view(m)), arch);
                            }
                            f.total = f.total + t as u128;
                            f.mov_count = f.mov_count + a as u128;
                            f.arithmetic_count = f.arithmetic_count + b as u128;
                            f.logic_count = f.logic_count + c as u128;
                            f.control_flow_count = f.control_flow_count + d as u128;
                            f.system_count = f.system_count + e as u128;
                        },
                        None => {
                            f.sections_failed = f.sections_failed + 1;
                        },
                    }
                }
            }
            i += 1;
        }
        assert(elf.sections@.subrange(0, n as int) == elf.sections@);
        if f.sections_failed > 0 {
            let mut m = decimal(f.sections_failed as u64);
            m.append(" sezioni eseguibili non disassemblabili, saltate");
            log.push("instruction", m);
        }
        assert(log.warnings@.map_values(|w: ExtractionWarning| crate::extraction_warnings::warning_view(w))
            =~= before + failed_warnings(f.sections_failed as int));
        f
    }
}

} // verus!
