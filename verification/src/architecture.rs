//! Target architecture of an ELF binary, decoded from `e_machine`.
use vstd::prelude::*;

verus! {

/// `e_machine` value of Intel 80386.
pub const EM_386: u16 = 3;
/// `e_machine` value of ARM (32 bit).
pub const EM_ARM: u16 = 40;
/// `e_machine` value of AMD x86-64.
pub const EM_X86_64: u16 = 62;
/// `e_machine` value of ARM AArch64.
pub const EM_AARCH64: u16 = 183;

/// The instruction set architectures the extractor knows about.
#[derive(Debug, Clone, Copy, PartialEq, Eq, Structural)]
pub enum ArchKind {
    X86,
    X86_64,
    Arm,
    Arm64,
    Unsupported,
}

/// Column names of the one-hot encoding, in the order of `ArchKind::index`.
pub const CSV_COLS: [&'static str; 5] = [
    "arch_x86",
    "arch_x86_64",
    "arch_arm",
    "arch_arm64",
    "arch_unsupported",
];

/// The architecture that an `e_machine` value names.
pub open spec fn arch_of_machine(e_machine: u16) -> ArchKind {
    if e_machine == EM_X86_64 {
        ArchKind::X86_64
    } else if e_machine == EM_386 {
        ArchKind::X86
    } else if e_machine == EM_AARCH64 {
        ArchKind::Arm64
    } else if e_machine == EM_ARM {
        ArchKind::Arm
    } else {
        ArchKind::Unsupported
    }
}

impl ArchKind {
    /// Position of the architecture in the one-hot encoding.
    pub open spec fn index(self) -> int {
        match self {
            ArchKind::X86 => 0,
            ArchKind::X86_64 => 1,
            ArchKind::Arm => 2,
            ArchKind::Arm64 => 3,
            ArchKind::Unsupported => 4,
        }
    }

    pub fn from_e_machine(e_machine: u16) -> (r: Self)
        ensures
            r == arch_of_machine(e_machine),
    {
        if e_machine == EM_X86_64 {
            ArchKind::X86_64
        } else if e_machine == EM_386 {
            ArchKind::X86
        } else if e_machine == EM_AARCH64 {
            ArchKind::Arm64
        } else if e_machine == EM_ARM {
            ArchKind::Arm
        } else {
            ArchKind::Unsupported
        }
    }

    /// One-hot encoding over the five architectures, in fixed CSV column order.
    pub fn one_hot(&self) -> (r: [u8; 5])
        ensures
            r@.len() == 5,
            forall|i: int| 0 <= i < 5 ==> r@[i] == (if i == self.index() { 1u8 } else { 0u8 }),
    {
        match self {
            ArchKind::X86 => [1, 0, 0, 0, 0],
            ArchKind::X86_64 => [0, 1, 0, 0, 0],
            ArchKind::Arm => [0, 0, 1, 0, 0],
            ArchKind::Arm64 => [0, 0, 0, 1, 0],
            ArchKind::Unsupported => [0, 0, 0, 0, 1],
        }
    }
}

/// The variant name of an architecture, as `{:?}` writes it.
pub open spec fn spec_arch_name(a: ArchKind) -> Seq<char> {
    match a {
        ArchKind::X86 => "X86"@,
        ArchKind::X86_64 => "X86_64"@,
        ArchKind::Arm => "Arm"@,
        ArchKind::Arm64 => "Arm64"@,
        ArchKind::Unsupported => "Unsupported"@,
    }
}

impl ArchKind {
    /// The variant name, as `{:?}` writes it.
    pub fn name(&self) -> (r: &'static str)
        ensures
            r@ == spec_arch_name(*self),
    {
        match self {
            ArchKind::X86 => "X86",
            ArchKind::X86_64 => "X86_64",
            ArchKind::Arm => "Arm",
            ArchKind::Arm64 => "Arm64",
            ArchKind::Unsupported => "Unsupported",
        }
    }
}

impl Default for ArchKind {
    fn default() -> (r: Self)
        ensures
            r == ArchKind::Unsupported,
    {
        ArchKind::Unsupported
    }
}

} // verus!
