//! Static feature extraction from ELF binaries for malware classification.
//!
//! The verified library turns the raw bytes of an ELF file into integer
//! statistics (byte histograms, section and segment counts, instruction
//! category counts, texture statistics of the byte image, ...). Ratios and
//! entropies are derived from these statistics by the application.
use vstd::prelude::*;

pub mod architecture;
pub mod byte_image;
pub mod texture;
pub mod text;
pub mod byte_level;
pub mod elf_info;
pub mod metadata;
pub mod packing;
pub mod relocation;
pub mod structural;
pub mod api_imports;
pub mod extraction_warnings;
pub mod strings;
pub mod instruction;
pub mod instruction_families;
pub mod sample;
pub mod dataset;

verus! {

} // verus!
