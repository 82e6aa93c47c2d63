//! One file under analysis and the whole feature set extracted from it.
use vstd::prelude::*;

use crate::api_imports::ApiImportFeature;
use crate::architecture::ArchKind;
use crate::byte_image::ImageFeature;
use crate::byte_level::ByteLevelFeature;
use crate::elf_info::ElfInfo;
use crate::extraction_warnings::{ExtractionWarning, WarningLog};
use crate::instruction::InstructionFeature;
use crate::metadata::MetadataFeature;
use crate::packing::PackingFeature;
use crate::relocation::RelocationFeature;
use crate::strings::StringFeature;
use crate::structural::StructuralFeature;
use crate::texture::TextureFeature;

verus! {

/// Every feature extracted from one ELF file.
#[derive(Debug)]
pub struct SampleFeature {
    pub byte_level: ByteLevelFeature,
    pub metadata: MetadataFeature,
    pub structural: StructuralFeature,
    pub instruction: InstructionFeature,
    pub api_imports: ApiImportFeature,
    pub strings: StringFeature,
    /// The byte image the texture statistics were taken from.
    pub image: ImageFeature,
    pub texture: TextureFeature,
    pub packing: PackingFeature,
    pub relocation: RelocationFeature,
}

/// A file under analysis.
#[derive(Debug)]
pub struct Sample {
    pub filename: String,
    pub full_path: String,
    /// The features: the default ones until `extract` has run.
    pub features: SampleFeature,
    pub raw_data: Vec<u8>,
}

/// `f` holds the features that the parsed file `data` (parsed as `elf`)
/// yields, with `byte_level` as its byte statistics.
pub open spec fn is_features_of(f: &SampleFeature, data: Seq<u8>, elf: &ElfInfo) -> bool {
    &&& crate::metadata::is_metadata_of(&f.metadata, elf, data.len() as usize)
    &&& f.metadata.arch == crate::architecture::ArchKind::Unsupported ==> crate::instruction::is_zero(&f.instruction)
    &&& f.metadata.arch != crate::architecture::ArchKind::Unsupported
        ==> crate::instruction::has_counts(&f.instruction, crate::instruction::section_counts(elf.sections@, data, f.metadata.arch))
    &&& crate::api_imports::is_api_import_of(&f.api_imports, elf)
    &&& crate::strings::is_string_feature_of(&f.strings, crate::strings::collected_strings(elf, data))
    &&& crate::structural::is_structural_of(&f.structural, data, elf)
    &&& crate::packing::is_packing_of(&f.packing, data, elf)
    &&& (crate::relocation::is_relocation_of(&f.relocation, elf, f.metadata.arch)
        || elf.relocs.dynrela@.len() + elf.relocs.dynrel@.len() + elf.relocs.pltreloc@.len() > usize::MAX)
    &&& crate::byte_image::is_byte_image(&f.image, data)
    &&& crate::texture::is_texture_of(&f.texture, &f.image)
}

/// The byte statistics of an empty file.
pub open spec fn is_empty_byte_level(b: &ByteLevelFeature) -> bool {
    &&& b.counts@.len() == 256
    &&& forall|v: int| 0 <= v < 256 ==> #[trigger] b.counts@[v] == 0
    &&& b.total == 0
    &&& b.sha256@.len() == 0
}

/// `f` is the feature set of a sample that nothing has been extracted from:
/// every count 0, every flag false, every table empty.
pub open spec fn is_default_features(f: &SampleFeature) -> bool {
    &&& is_empty_byte_level(&f.byte_level)
    &&& f.metadata.file_size == 0 && !f.metadata.is_64_bit && !f.metadata.is_shared_object
        && f.metadata.entry_point_position is None && !f.metadata.entry_point_last_section
        && !f.metadata.is_stripped && f.metadata.arch == crate::architecture::ArchKind::Unsupported
    &&& f.structural.section_count == 0 && f.structural.segment_count == 0
        && f.structural.rwx_section_count == 0 && f.structural.wx_segment_count == 0
        && f.structural.empty_section_count == 0 && f.structural.code_size == 0
        && f.structural.data_size == 0 && f.structural.entropy_ranges@.len() == 0
    &&& crate::instruction::is_zero(&f.instruction)
    &&& f.api_imports.dynamic_library_count == 0 && f.api_imports.total_import_count == 0
        && f.api_imports.network_api_count == 0 && f.api_imports.process_api_count == 0
        && f.api_imports.file_io_api_count == 0
    &&& f.strings.string_count == 0 && f.strings.classified_count == 0 && f.strings.total_length == 0
        && f.strings.network_indicators_count == 0 && f.strings.suspicious_paths_count == 0
    &&& f.image.width == 0 && f.image.height == 0 && f.image.matrix@.len() == 0
    &&& f.texture.edge_count == 0 && f.texture.edge_total == 0 && f.texture.glcm_pairs == 0
        && f.texture.lbp_total == 0 && f.texture.glcm_counts@.len() == 1024 && f.texture.lbp_counts@.len() == 256
        && (forall|v: int| 0 <= v < 1024 ==> #[trigger] f.texture.glcm_counts@[v] == 0)
        && (forall|v: int| 0 <= v < 256 ==> #[trigger] f.texture.lbp_counts@[v] == 0)
    &&& f.packing.allocated_section_size == 0 && !f.packing.section_table_inconsistent
        && !f.packing.entry_point_outside_text && f.packing.nonstandard_section_name_count == 0
        && !f.packing.known_packer_signature_found
    &&& f.relocation.reloc_dyn_count == 0 && f.relocation.reloc_plt_count == 0
        && f.relocation.nonstandard_reloc_type_count == 0
}

impl Default for SampleFeature {
    /// The feature set of a sample that nothing has been extracted from.
    fn default() -> (r: Self)
        ensures
            is_default_features(&r),
    {
        SampleFeature {
            byte_level: ByteLevelFeature::empty(),
            metadata: MetadataFeature {
                file_size: 0,
                is_64_bit: false,
                is_shared_object: false,
                entry_point_position: None,
                entry_point_last_section: false,
                is_stripped: false,
                arch: ArchKind::Unsupported,
            },
            structural: StructuralFeature::empty(),
            instruction: InstructionFeature::zero(),
            api_imports: ApiImportFeature {
                dynamic_library_count: 0,
                total_import_count: 0,
                network_api_count: 0,
                process_api_count: 0,
                file_io_api_count: 0,
            },
            strings: StringFeature {
                string_count: 0,
                classified_count: 0,
                total_length: 0,
                network_indicators_count: 0,
                suspicious_paths_count: 0,
            },
            image: ImageFeature { width: 0, height: 0, matrix: Vec::new() },
            texture: TextureFeature {
                edge_count: 0,
                edge_total: 0,
                glcm_counts: crate::texture::zeros(1024),
                glcm_pairs: 0,
                lbp_counts: crate::texture::zeros(256),
                lbp_total: 0,
            },
            packing: PackingFeature {
                allocated_section_size: 0,
                section_table_inconsistent: false,
                entry_point_outside_text: false,
                nonstandard_section_name_count: 0,
                known_packer_signature_found: false,
            },
            relocation: RelocationFeature::zero(),
        }
    }
}

/// The warnings of the instruction extractor, `iw`, agree with its result
/// `f` for the file `data`, parsed as `elf`, of architecture `arch`: for an
/// unsupported architecture zero counts and one warning, otherwise the
/// counts of every executable section and a warning when some were refused.
pub open spec fn instruction_outcome(
    f: &InstructionFeature,
    iw: Seq<(Seq<char>, Seq<char>)>,
    elf: &ElfInfo,
    data: Seq<u8>,
    arch: ArchKind,
) -> bool {
    let c = crate::instruction::section_counts(elf.sections@, data, arch);
    &&& arch == ArchKind::Unsupported ==> crate::instruction::is_zero(f)
        && iw == seq![crate::instruction::unsupported_warning(arch)]
    &&& arch != ArchKind::Unsupported ==> crate::instruction::has_counts(f, c)
        && iw == crate::instruction::failed_warnings(c.6)
}

/// `b` holds the byte statistics of the file `data`: those of an empty file
/// when it is empty.
pub open spec fn byte_level_of_file(b: &ByteLevelFeature, data: Seq<u8>) -> bool {
    &&& data.len() > 0 ==> crate::byte_level::is_byte_level_of(b, data)
    &&& data.len() == 0 ==> is_empty_byte_level(b)
}

/// The warning that byte statistics add for the file `data`: one for an empty file.
pub open spec fn byte_level_warnings(data: Seq<u8>) -> Seq<(Seq<char>, Seq<char>)> {
    if data.len() == 0 {
        seq![("byte_level"@, "raw_data is empty"@)]
    } else {
        seq![]
    }
}

/// `a` and `b` agree on every feature but the byte statistics.
pub open spec fn same_but_byte_level(a: &SampleFeature, b: &SampleFeature) -> bool {
    &&& a.metadata == b.metadata
    &&& a.structural == b.structural
    &&& a.instruction == b.instruction
    &&& a.api_imports == b.api_imports
    &&& a.strings == b.strings
    &&& a.image == b.image
    &&& a.texture == b.texture
    &&& a.packing == b.packing
    &&& a.relocation == b.relocation
}

/// The (module, message) views of the warnings of a log.
pub open spec fn log_view(log: &WarningLog) -> Seq<(Seq<char>, Seq<char>)> {
    log.warnings@.map_values(|w: ExtractionWarning| crate::extraction_warnings::warning_view(w))
}

impl SampleFeature {
    /// Runs every ELF-level extractor on the file `raw_data`, parsed as `elf`,
    /// with `byte_level` already computed. Extractors that meet damaged
    /// parts add warnings to `log` and carry on.
    pub fn extract(raw_data: &[u8], elf: &ElfInfo, byte_level: ByteLevelFeature, log: &mut WarningLog) -> (r: Self)
        requires
            raw_data@.len() <= isize::MAX,
        ensures
            is_features_of(&r, raw_data@, elf),
            r.byte_level == byte_level,
            exists|iw: Seq<(Seq<char>, Seq<char>)>| #![auto]
                instruction_outcome(&r.instruction, iw, elf, raw_data@, r.metadata.arch)
                && log_view(final(log)) == log_view(old(log)) + iw + crate::strings::string_warnings(elf, raw_data@),
    {
        let ghost log0 = log_view(log);
        let metadata = MetadataFeature::extract(elf, raw_data.len());
        let arch = metadata.arch;
        let instruction = InstructionFeature::extract(elf, raw_data, arch, log);
        let ghost log1 = log_view(log);
        let ghost iw = log1.subrange(log0.len() as int, log1.len() as int);
        proof {
            assert(log1 =~= log0 + iw);
            let c = crate::instruction::section_counts(elf.sections@, raw_data@, arch);
            if arch == ArchKind::Unsupported {
                assert(iw =~= seq![crate::instruction::unsupported_warning(arch)]);
            } else {
                assert(iw =~= crate::instruction::failed_warnings(c.6));
            }
            assert(instruction_outcome(&instruction, iw, elf, raw_data@, arch));
        }
        let api_imports = ApiImportFeature::extract(elf);
        let strings = StringFeature::extract(elf, raw_data, log);
        let structural = match StructuralFeature::extract(raw_data, elf) {
            Ok(s) => s,
            Err(e) => {
                log.push("structural", e);
                StructuralFeature::empty()
            },
        };
        let packing = PackingFeature::extract(raw_data, elf);
        let dyn_count = elf.relocs.dynrela.len().checked_add(elf.relocs.dynrel.len());
        let relocation = match dyn_count {
            Some(d) => match d.checked_add(elf.relocs.pltreloc.len()) {
                Some(_) => RelocationFeature::extract(elf, arch),
                None => RelocationFeature::zero(),
            },
            None => RelocationFeature::zero(),
        };
        let image = ImageFeature::extract(raw_data);
        let texture = TextureFeature::extract(&image);
        proof {
            assert(log_view(log) == log0 + iw + crate::strings::string_warnings(elf, raw_data@));
        }
        SampleFeature {
            byte_level,
            metadata,
            structural,
            instruction,
            api_imports,
            strings,
            image,
            texture,
            packing,
            relocation,
        }
    }
}

impl Sample {
    /// A sample of the file `filename` found at `full_path` with contents
    /// `raw_data`; an empty file is refused.
    pub fn new(filename: String, full_path: String, raw_data: Vec<u8>) -> (r: Result<Self, String>)
        ensures
            r is Err <==> raw_data@.len() == 0,
            r matches Err(e) ==> e@ == "File "@ + filename@ + " is empty"@,
            r matches Ok(s) ==> s.filename == filename && s.full_path == full_path && s.raw_data == raw_data
                && is_default_features(&s.features),
    {
        if raw_data.len() == 0 {
            let mut m = String::from_str("File ");
            m.append(filename.as_str());
            m.append(" is empty");
            return Err(m);
        }
        Ok(Sample { filename, full_path, features: SampleFeature::default(), raw_data })
    }

    /// Extracts every feature. The byte statistics are taken first and kept
    /// whatever follows; the extraction fails only when the file does not
    /// parse as ELF, and then the other features stay as they were. Every
    /// other problem is a warning in the returned log.
    pub fn extract(&mut self) -> (r: Result<WarningLog, String>)
        requires
            old(self).raw_data@.len() <= isize::MAX,
        ensures
            r is Ok == crate::elf_info::elf_parses(old(self).raw_data@),
            r matches Err(e) ==> e@ == "Cannot parse "@ + old(self).filename@ + ": "@
                + crate::elf_info::elf_parse_error(old(self).raw_data@),
            final(self).raw_data == old(self).raw_data,
            final(self).filename == old(self).filename,
            final(self).full_path == old(self).full_path,
            byte_level_of_file(&final(self).features.byte_level, old(self).raw_data@),
            r is Err ==> same_but_byte_level(&final(self).features, &old(self).features),
            r matches Ok(log) ==> exists|info: ElfInfo, iw: Seq<(Seq<char>, Seq<char>)>| #![auto]
                crate::elf_info::is_info_of(&info, crate::elf_info::parsed_elf(old(self).raw_data@))
                && is_features_of(&final(self).features, old(self).raw_data@, &info)
                && instruction_outcome(&final(self).features.instruction, iw, &info, old(self).raw_data@,
                    final(self).features.metadata.arch)
                && log_view(&log) == byte_level_warnings(old(self).raw_data@) + iw
                    + crate::strings::string_warnings(&info, old(self).raw_data@),
    {
        let mut log = WarningLog::new();
        let byte_level = match ByteLevelFeature::extract(self.raw_data.as_slice()) {
            Ok(b) => b,
            Err(e) => {
                log.push("byte_level", e);
                ByteLevelFeature::empty()
            },
        };
        assert(log_view(&log) =~= byte_level_warnings(self.raw_data@));
        let elf = match ElfInfo::parse(self.raw_data.as_slice()) {
            Ok(elf) => elf,
            Err(e) => {
                self.features.byte_level = byte_level;
                let mut m = String::from_str("Cannot parse ");
                m.append(self.filename.as_str());
                m.append(": ");
                m.append(e.as_str());
                return Err(m);
            },
        };
        let features = SampleFeature::extract(self.raw_data.as_slice(), &elf, byte_level, &mut log);
        self.features = features;
        Ok(log)
    }

    /// The bytes of a `width` by `height` grayscale image of the file: its
    /// first bytes, padded with zeros.
    pub fn image_buffer(&self, width: u32, height: u32) -> (r: Vec<u8>)
        requires
            width * height <= u32::MAX,
        ensures
            r@.len() == width * height,
            forall|i: int| 0 <= i < r@.len() ==> #[trigger] r@[i] == if i < self.raw_data@.len() {
                self.raw_data@[i]
            } else {
                0u8
            },
    {
        let target = (width * height) as usize;
        let mut buf: Vec<u8> = Vec::new();
        let mut i: usize = 0;
        while i < target
            invariant
                i <= target,
                target == width * height,
                buf@.len() == i,
                forall|k: int| 0 <= k < i ==> #[trigger] buf@[k] == if k < self.raw_data@.len() {
                    self.raw_data@[k]
                } else {
                    0u8
                },
            decreases target - i,
        {
            let b = if i < self.raw_data.len() { self.raw_data[i] } else { 0 };
            buf.push(b);
            i += 1;
        }
        buf
    }
}

} // verus!
