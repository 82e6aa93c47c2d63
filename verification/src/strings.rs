//! Printable strings of an ELF file and the indicators found in them.
use regex::Regex;
use vstd::prelude::*;
use vstd::string::StringSliceAdditionalSpecFns;

use crate::elf_info::{ElfInfo, SectionInfo};
use crate::extraction_warnings::{ExtractionWarning, WarningLog};
use crate::text::{decimal, str_contains};

verus! {

#[verifier::external_type_specification]
#[verifier::external_body]
pub struct ExRegex(Regex);

/// Dotted quads of one to three digits between word boundaries.
pub const IP_PATTERN: &'static str = "\\b(?:\\d{1,3}\\.){3}\\d{1,3}\\b";

/// An `http://` or `https://` scheme.
pub const URL_PATTERN: &'static str = "https?://";

/// File system prefixes whose mention is suspicious.
pub const SUSPICIOUS_PATHS: [&'static str; 5] = ["/usr", "/bin", "/etc", "/tmp", "/opt"];

/// At most this many strings are classified.
pub const CLASSIFY_LIMIT: usize = 2000;

/// Whether `regex::Regex::new` accepts `pattern`.
pub uninterp spec fn regex_compiles(pattern: Seq<char>) -> bool;

/// Whether the regular expression `pattern` matches somewhere in `text`, as
/// `regex::Regex::is_match` decides.
pub uninterp spec fn regex_finds(pattern: Seq<char>, text: Seq<char>) -> bool;

/// A compiled regular expression together with its source.
pub struct Pattern {
    source: String,
    re: Regex,
}

impl Pattern {
    /// The source the expression was compiled from.
    pub closed spec fn source(&self) -> Seq<char> {
        self.source@
    }
}

/// `regex::Regex::new`.
///
/// Trusted: it succeeds exactly when `regex_compiles(pattern)`.
#[verifier::external_body]
fn regex_new(pattern: &str) -> (r: Option<Regex>)
    ensures
        r is Some == regex_compiles(pattern@),
{
    Regex::new(pattern).ok()
}

/// `regex::Regex::is_match` of the compiled pattern on `text`.
///
/// Trusted: the result is `regex_finds(source, text)` for the source the
/// pattern was compiled from; `Pattern::compile` is the only place that
/// builds a `Pattern`, from the source it stores.
#[verifier::external_body]
fn regex_is_match(p: &Pattern, text: &str) -> (r: bool)
    ensures
        r == regex_finds(p.source(), text@),
{
    p.re.is_match(text)
}

impl Pattern {
    /// Compiles `source`; `None` when the regex syntax refuses it.
    pub fn compile(source: &str) -> (r: Option<Self>)
        ensures
            r is Some == regex_compiles(source@),
            r matches Some(p) ==> p.source() == source@,
    {
        match regex_new(source) {
            Some(re) => Some(Pattern { source: String::from_str(source), re }),
            None => None,
        }
    }

    /// Whether the pattern matches somewhere in `text`.
    pub fn is_match(&self, text: &str) -> (r: bool)
        ensures
            r == regex_finds(self.source(), text@),
    {
        regex_is_match(self, text)
    }
}

/// The pattern of IP-address-like text.
fn ip_regex() -> (r: Option<Pattern>)
    ensures
        r is Some == regex_compiles(IP_PATTERN@),
        r matches Some(p) ==> p.source() == IP_PATTERN@,
{
    Pattern::compile(IP_PATTERN)
}

/// The pattern of a URL scheme.
fn url_regex() -> (r: Option<Pattern>)
    ensures
        r is Some == regex_compiles(URL_PATTERN@),
        r matches Some(p) ==> p.source() == URL_PATTERN@,
{
    Pattern::compile(URL_PATTERN)
}

/// The text holds an IP-address-like token.
pub open spec fn has_ip(s: Seq<char>) -> bool {
    regex_compiles(IP_PATTERN@) && regex_finds(IP_PATTERN@, s)
}

/// The text holds a URL scheme.
pub open spec fn has_url(s: Seq<char>) -> bool {
    regex_compiles(URL_PATTERN@) && regex_finds(URL_PATTERN@, s)
}

/// The text mentions one of the suspicious paths.
pub open spec fn has_suspicious_path(s: Seq<char>) -> bool {
    exists|k: int| 0 <= k < 5 && crate::text::contains_sub(vstd::utf8::encode_utf8(s), #[trigger] SUSPICIOUS_PATHS@[k].spec_bytes())
}

/// Printable ASCII or space.
pub open spec fn is_text_byte(b: u8) -> bool {
    (0x21 <= b && b <= 0x7e) || b == 0x20
}

/// (finished runs, current run) after scanning `bytes`: a run is kept when a
/// non-printable byte ends it after more than three printable ones.
pub open spec fn scan_runs(bytes: Seq<u8>) -> (Seq<Seq<u8>>, Seq<u8>)
    decreases bytes.len(),
{
    if bytes.len() == 0 {
        (seq![], seq![])
    } else {
        let (runs, cur) = scan_runs(bytes.drop_last());
        let b = bytes.last();
        if is_text_byte(b) {
            (runs, cur.push(b))
        } else if cur.len() > 3 {
            (runs.push(cur), seq![])
        } else {
            (runs, seq![])
        }
    }
}

/// The maximal runs of more than three printable bytes, in order.
pub open spec fn text_runs(bytes: Seq<u8>) -> Seq<Seq<u8>> {
    let (runs, cur) = scan_runs(bytes);
    if cur.len() > 3 {
        runs.push(cur)
    } else {
        runs
    }
}

/// The characters of ASCII bytes.
pub open spec fn as_chars(b: Seq<u8>) -> Seq<char> {
    b.map_values(|x: u8| x as char)
}

/// The non-empty texts among `v`, in order.
pub open spec fn nonempty_texts(v: Seq<String>) -> Seq<Seq<char>>
    decreases v.len(),
{
    if v.len() == 0 {
        seq![]
    } else if v.last()@.len() > 0 {
        nonempty_texts(v.drop_last()).push(v.last()@)
    } else {
        nonempty_texts(v.drop_last())
    }
}

/// The non-empty strings of a string table that could be read.
pub open spec fn table_strings(t: Result<Vec<String>, String>) -> Seq<Seq<char>> {
    match t {
        Ok(v) => nonempty_texts(v@),
        Err(_) => seq![],
    }
}

/// (offset, end) of the bytes of the first `.rodata` section, the end cut at
/// the end of a file of `len` bytes.
pub open spec fn rodata_bounds(secs: Seq<SectionInfo>, len: int) -> Option<(int, int)> {
    match crate::packing::first_named(secs, ".rodata"@) {
        Some(i) => {
            let s = secs[i];
            let end = s.sh_offset.saturating_add(s.sh_size) as int;
            Some((s.sh_offset as int, if end < len { end } else { len }))
        },
        None => None,
    }
}

/// The printable runs of the `.rodata` section, when its bytes lie in the file.
pub open spec fn rodata_texts(secs: Seq<SectionInfo>, data: Seq<u8>) -> Seq<Seq<char>> {
    match rodata_bounds(secs, data.len() as int) {
        Some((o, e)) => if o < e {
            text_runs(data.subrange(o, e)).map_values(|r: Seq<u8>| as_chars(r))
        } else {
            seq![]
        },
        None => seq![],
    }
}

/// Every string gathered from a file: symbol string table, dynamic string
/// table, then the printable runs of `.rodata`.
pub open spec fn collected_strings(elf: &ElfInfo, data: Seq<u8>) -> Seq<Seq<char>> {
    table_strings(elf.strtab) + table_strings(elf.dynstrtab) + rodata_texts(elf.sections@, data)
}

/// The warning about an unreadable string table.
pub open spec fn table_warning(t: Result<Vec<String>, String>, what: Seq<char>) -> Seq<(Seq<char>, Seq<char>)> {
    match t {
        Ok(_) => seq![],
        Err(e) => seq![("strings"@, what + " illeggibile, saltata: "@ + e@)],
    }
}

/// The warning about a `.rodata` section whose bytes lie outside the file.
pub open spec fn rodata_warning(secs: Seq<SectionInfo>, data: Seq<u8>) -> Seq<(Seq<char>, Seq<char>)> {
    match rodata_bounds(secs, data.len() as int) {
        Some((o, e)) => if o < e {
            seq![]
        } else {
            let s = secs[crate::packing::first_named(secs, ".rodata"@)->0];
            seq![(
                "strings"@,
                ".rodata offset/size fuori dai limiti del file (offset="@ + crate::text::spec_decimal(s.sh_offset as nat)
                    + ", size="@ + crate::text::spec_decimal(s.sh_size as nat) + ", filelen="@
                    + crate::text::spec_decimal(data.len()) + ")"@,
            )]
        },
        None => seq![],
    }
}

/// The warnings that string extraction adds for a file, as (module, message).
pub open spec fn string_warnings(elf: &ElfInfo, data: Seq<u8>) -> Seq<(Seq<char>, Seq<char>)> {
    let empty = if collected_strings(elf, data).len() == 0 {
        seq![("strings"@, "nessuna stringa estratta da strtab/dynstrtab/.rodata"@)]
    } else {
        seq![]
    };
    table_warning(elf.strtab, "strtab"@) + table_warning(elf.dynstrtab, "dynstrtab"@) + rodata_warning(elf.sections@, data) + empty
}

/// Total UTF-8 length of the texts.
pub open spec fn total_len(s: Seq<Seq<char>>) -> int
    decreases s.len(),
{
    if s.len() == 0 {
        0
    } else {
        total_len(s.drop_last()) + vstd::utf8::encode_utf8(s.last()).len()
    }
}

/// Texts that hold an IP-like token or a URL scheme.
pub open spec fn network_count(s: Seq<Seq<char>>) -> nat
    decreases s.len(),
{
    if s.len() == 0 {
        0
    } else {
        network_count(s.drop_last()) + if has_ip(s.last()) || has_url(s.last()) {
            1nat
        } else {
            0nat
        }
    }
}

/// Texts that mention a suspicious path.
pub open spec fn suspicious_count(s: Seq<Seq<char>>) -> nat
    decreases s.len(),
{
    if s.len() == 0 {
        0
    } else {
        suspicious_count(s.drop_last()) + if has_suspicious_path(s.last()) {
            1nat
        } else {
            0nat
        }
    }
}

/// String statistics of an ELF file.
///
/// The average string length of the CSV feature set is
/// `total_length / classified_count`, 0 when no string was classified.
#[derive(Debug)]
pub struct StringFeature {
    /// All strings gathered.
    pub string_count: usize,
    /// The strings classified: the first `CLASSIFY_LIMIT` at most.
    pub classified_count: usize,
    /// Total UTF-8 length of the classified strings.
    pub total_length: u128,
    /// Classified strings holding an IP-like token or a URL scheme.
    pub network_indicators_count: usize,
    /// Classified strings mentioning one of `SUSPICIOUS_PATHS`.
    pub suspicious_paths_count: usize,
}

/// `f` holds the statistics of the strings `all`.
pub open spec fn is_string_feature_of(f: &StringFeature, all: Seq<Seq<char>>) -> bool {
    let n = if all.len() < CLASSIFY_LIMIT { all.len() as int } else { CLASSIFY_LIMIT as int };
    let first = all.take(n);
    &&& f.string_count == all.len()
    &&& f.classified_count == n
    &&& f.total_length == total_len(first)
    &&& f.network_indicators_count == network_count(first)
    &&& f.suspicious_paths_count == suspicious_count(first)
}

proof fn lemma_counts_bound(s: Seq<Seq<char>>)
    ensures
        network_count(s) <= s.len(),
        suspicious_count(s) <= s.len(),
    decreases s.len(),
{
    if s.len() > 0 {
        lemma_counts_bound(s.drop_last());
    }
}

/// The printable runs of more than three bytes in `bytes[start..end]`.
fn text_runs_in(bytes: &[u8], start: usize, end: usize) -> (r: Vec<String>)
    requires
        start <= end <= bytes@.len(),
    ensures
        crate::text::texts(r@) == text_runs(bytes@.subrange(start as int, end as int)).map_values(|r: Seq<u8>| as_chars(r)),
{
    let ghost region = bytes@.subrange(start as int, end as int);
    let mut out: Vec<String> = Vec::new();
    let mut cur = String::new();
    let mut cur_len: usize = 0;
    let mut i: usize = start;
    while i < end
        invariant
            start <= i <= end <= bytes@.len(),
            region == bytes@.subrange(start as int, end as int),
            crate::text::texts(out@) == scan_runs(region.subrange(0, i - start)).0.map_values(|r: Seq<u8>| as_chars(r)),
            cur@ == as_chars(scan_runs(region.subrange(0, i - start)).1),
            cur_len == scan_runs(region.subrange(0, i - start)).1.len(),
            cur_len <= i - start,
        decreases end - i,
    {
        let b = bytes[i];
        let ghost prev = region.subrange(0, i - start);
        proof {
            assert(region.subrange(0, i + 1 - start).drop_last() == prev);
            assert(region.subrange(0, i + 1 - start).last() == b);
        }
        if (0x21 <= b && b <= 0x7e) || b == 0x20 {
            cur.push(b as char);
            cur_len += 1;
            proof {
                assert(as_chars(scan_runs(prev).1.push(b)) =~= as_chars(scan_runs(prev).1).push(b as char));
            }
        } else if cur_len > 3 {
            let ghost old_out = out@;
            out.push(cur);
            cur = String::new();
            cur_len = 0;
            proof {
                assert(crate::text::texts(out@) =~= crate::text::texts(old_out).push(as_chars(scan_runs(prev).1)));
                assert(scan_runs(prev).0.push(scan_runs(prev).1).map_values(|r: Seq<u8>| as_chars(r))
                    =~= scan_runs(prev).0.map_values(|r: Seq<u8>| as_chars(r)).push(as_chars(scan_runs(prev).1)));
                assert(as_chars(Seq::<u8>::empty()) =~= Seq::<char>::empty());
            }
        } else {
            cur = String::new();
            cur_len = 0;
            proof {
                assert(as_chars(Seq::<u8>::empty()) =~= Seq::<char>::empty());
            }
        }
        i += 1;
    }
    assert(region.subrange(0, end - start) == region);
    if cur_len > 3 {
        let ghost old_out = out@;
        out.push(cur);
        proof {
            assert(crate::text::texts(out@) =~= crate::text::texts(old_out).push(as_chars(scan_runs(region).1)));
            assert(scan_runs(region).0.push(scan_runs(region).1).map_values(|r: Seq<u8>| as_chars(r))
                =~= scan_runs(region).0.map_values(|r: Seq<u8>| as_chars(r)).push(as_chars(scan_runs(region).1)));
        }
    }
    out
}

/// Appends the non-empty strings of `table` to `out`.
fn append_nonempty(out: &mut Vec<String>, table: &Vec<String>)
    ensures
        crate::text::texts(final(out)@) == crate::text::texts(old(out)@) + nonempty_texts(table@),
{
    let mut i: usize = 0;
    while i < table.len()
        invariant
            i <= table@.len(),
            crate::text::texts(out@) == crate::text::texts(old(out)@) + nonempty_texts(table@.subrange(0, i as int)),
        decreases table@.len() - i,
    {
        let ghost before = out@;
        proof {
            assert(table@.subrange(0, i + 1).drop_last() == table@.subrange(0, i as int));
        }
        if !table[i].as_str().is_empty() {
            out.push(table[i].clone());
            assert(crate::text::texts(out@) =~= crate::text::texts(before).push(table@[i as int]@));
        }
        i += 1;
    }
    assert(table@.subrange(0, table@.len() as int) == table@);
}

/// Moves the strings of `more` to the end of `out`.
fn extend_texts(out: &mut Vec<String>, more: Vec<String>)
    ensures
        crate::text::texts(final(out)@) == crate::text::texts(old(out)@) + crate::text::texts(more@),
{
    let mut i: usize = 0;
    while i < more.len()
        invariant
            i <= more@.len(),
            crate::text::texts(out@) == crate::text::texts(old(out)@) + crate::text::texts(more@).subrange(0, i as int),
        decreases more@.len() - i,
    {
        let ghost before = out@;
        out.push(more[i].clone());
        assert(crate::text::texts(out@) =~= crate::text::texts(before).push(more@[i as int]@));
        assert(crate::text::texts(more@).subrange(0, i + 1) =~= crate::text::texts(more@).subrange(0, i as int).push(more@[i as int]@));
        i += 1;
    }
    assert(crate::text::texts(more@).subrange(0, more@.len() as int) =~= crate::text::texts(more@));
}

/// Index of the first section named `.rodata`.
fn find_rodata(secs: &Vec<SectionInfo>) -> (r: Option<usize>)
    ensures
        match r {
            Some(i) => crate::packing::first_named(secs@, ".rodata"@) == Some(i as int) && i < secs@.len(),
            None => crate::packing::first_named(secs@, ".rodata"@) is None,
        },
{
    let mut i: usize = 0;
    assert(secs@.skip(0) == secs@);
    while i < secs.len()
        invariant
            i <= secs@.len(),
            crate::packing::first_named(secs@, ".rodata"@) == match crate::packing::first_named(secs@.skip(i as int), ".rodata"@) {
                Some(k) => Some(k + i),
                None => None::<int>,
            },
        decreases secs@.len() - i,
    {
        assert(secs@.skip(i as int)[0] == secs@[i as int]);
        let named = match &secs[i].name {
            Some(n) => crate::text::str_eq(n.as_str(), ".rodata"),
            None => false,
        };
        if named {
            assert(crate::packing::first_named(secs@.skip(i as int), ".rodata"@) == Some(0int));
            return Some(i);
        }
        assert(secs@.skip(i as int).drop_first() == secs@.skip(i + 1));
        i += 1;
    }
    None
}

impl StringFeature {
    /// Gathers the strings of a file and classifies them. Never fails: an
    /// unreadable string table, a `.rodata` section outside the file or an
    /// empty result add a warning to `log` and extraction goes on.
    pub fn extract(elf: &ElfInfo, raw_data: &[u8], log: &mut WarningLog) -> (r: Self)
        ensures
            is_string_feature_of(&r, collected_strings(elf, raw_data@)),
            final(log).warnings@.map_values(|w: ExtractionWarning| crate::extraction_warnings::warning_view(w))
                == old(log).warnings@.map_values(|w: ExtractionWarning| crate::extraction_warnings::warning_view(w))
                + string_warnings(elf, raw_data@),
    {
        let ghost log0 = old(log).warnings@.map_values(|w: ExtractionWarning| crate::extraction_warnings::warning_view(w));
        let mut strings: Vec<String> = Vec::new();
        Self::gather_table(&mut strings, &elf.strtab, "strtab", log);
        Self::gather_table(&mut strings, &elf.dynstrtab, "dynstrtab", log);
        let ghost log1 = log.warnings@.map_values(|w: ExtractionWarning| crate::extraction_warnings::warning_view(w));
        assert(log1 =~= log0 + table_warning(elf.strtab, "strtab"@) + table_warning(elf.dynstrtab, "dynstrtab"@));
        let len = raw_data.len();
        match find_rodata(&elf.sections) {
            Some(i) => {
                let s = &elf.sections[i];
                let sat = s.sh_offset.saturating_add(s.sh_size);
                let end = if sat < len as u64 { sat } else { len as u64 };
                if s.sh_offset < end {
                    let found = text_runs_in(raw_data, s.sh_offset as usize, end as usize);
                    extend_texts(&mut strings, found);
                    assert(log.warnings@.map_values(|w: ExtractionWarning| crate::extraction_warnings::warning_view(w))
                        =~= log1 + rodata_warning(elf.sections@, raw_data@));
                } else {
                    let mut m = String::from_str(".rodata offset/size fuori dai limiti del file (offset=");
                    m.append(decimal(s.sh_offset).as_str());
                    m.append(", size=");
                    m.append(decimal(s.sh_size).as_str());
                    m.append(", filelen=");
                    m.append(decimal(len as u64).as_str());
                    m.append(")");
                    log.push("strings", m);
                    assert(log.warnings@.map_values(|w: ExtractionWarning| crate::extraction_warnings::warning_view(w))
                        =~= log1 + rodata_warning(elf.sections@, raw_data@));
                }
            },
            None => {
                assert(log.warnings@.map_values(|w: ExtractionWarning| crate::extraction_warnings::warning_view(w))
                    =~= log1 + rodata_warning(elf.sections@, raw_data@));
            },
        }
        let ghost log2 = log.warnings@.map_values(|w: ExtractionWarning| crate::extraction_warnings::warning_view(w));
        assert(log2 == log1 + rodata_warning(elf.sections@, raw_data@));
        assert(crate::text::texts(strings@) =~= collected_strings(elf, raw_data@));
        let ghost empty_part = if collected_strings(elf, raw_data@).len() == 0 {
            seq![("strings"@, "nessuna stringa estratta da strtab/dynstrtab/.rodata"@)]
        } else {
            seq![]
        };
        if strings.len() == 0 {
            log.push("strings", String::from_str("nessuna stringa estratta da strtab/dynstrtab/.rodata"));
        }
        assert(log.warnings@.map_values(|w: ExtractionWarning| crate::extraction_warnings::warning_view(w))
            =~= log2 + empty_part);
        assert(log.warnings@.map_values(|w: ExtractionWarning| crate::extraction_warnings::warning_view(w))
            =~= log0 + string_warnings(elf, raw_data@));
        let total = strings.len();
        let n = if total < CLASSIFY_LIMIT { total } else { CLASSIFY_LIMIT };
        Self::classify(&strings, n, total)
    }

    /// Appends the non-empty strings of a readable table to `out`, or a
    /// warning about table `what` to `log`.
    fn gather_table(out: &mut Vec<String>, table: &Result<Vec<String>, String>, what: &'static str, log: &mut WarningLog)
        ensures
            crate::text::texts(final(out)@) == crate::text::texts(old(out)@) + table_strings(*table),
            final(log).warnings@.map_values(|w: ExtractionWarning| crate::extraction_warnings::warning_view(w))
                == old(log).warnings@.map_values(|w: ExtractionWarning| crate::extraction_warnings::warning_view(w))
                + table_warning(*table, what@),
    {
        match table {
            Ok(v) => {
                append_nonempty(out, v);
                assert(log.warnings@.map_values(|w: ExtractionWarning| crate::extraction_warnings::warning_view(w))
                    =~= old(log).warnings@.map_values(|w: ExtractionWarning| crate::extraction_warnings::warning_view(w))
                    + table_warning(*table, what@));
            },
            Err(e) => {
                let mut m = String::from_str(what);
                m.append(" illeggibile, saltata: ");
                m.append(e.as_str());
                log.push("strings", m);
                assert(crate::text::texts(out@) =~= crate::text::texts(old(out)@) + table_strings(*table));
                assert(log.warnings@.map_values(|w: ExtractionWarning| crate::extraction_warnings::warning_view(w))
                    =~= old(log).warnings@.map_values(|w: ExtractionWarning| crate::extraction_warnings::warning_view(w))
                    + table_warning(*table, what@));
            },
        }
    }

    /// Statistics of the first `n` strings; `total_count` is the number of strings gathered.
    fn classify(strings: &Vec<String>, n: usize, total_count: usize) -> (r: Self)
        requires
            n <= strings@.len(),
            n <= CLASSIFY_LIMIT,
        ensures
            r.string_count == total_count,
            r.classified_count == n,
            r.total_length == total_len(crate::text::texts(strings@).take(n as int)),
            r.network_indicators_count == network_count(crate::text::texts(strings@).take(n as int)),
            r.suspicious_paths_count == suspicious_count(crate::text::texts(strings@).take(n as int)),
    {
        let ip = ip_regex();
        let url = url_regex();
        let mut total_length: u128 = 0;
        let mut network: usize = 0;
        let mut suspicious: usize = 0;
        let mut i: usize = 0;
        while i < n
            invariant
                n <= strings@.len(),
                n <= CLASSIFY_LIMIT,
                i <= n,
                ip is Some == regex_compiles(IP_PATTERN@),
                ip matches Some(p) ==> p.source() == IP_PATTERN@,
                url is Some == regex_compiles(URL_PATTERN@),
                url matches Some(p) ==> p.source() == URL_PATTERN@,
                total_length == total_len(crate::text::texts(strings@).take(i as int)),
                total_length <= i * 0xffff_ffff_ffff_ffffint,
                network == network_count(crate::text::texts(strings@).take(i as int)),
                suspicious == suspicious_count(crate::text::texts(strings@).take(i as int)),
            decreases n - i,
        {
            let s = strings[i].as_str();
            proof {
                assert(crate::text::texts(strings@).take(i + 1).drop_last() == crate::text::texts(strings@).take(i as int));
                assert(crate::text::texts(strings@).take(i + 1).last() == s@);
                lemma_counts_bound(crate::text::texts(strings@).take(i as int));
                assert(i * 0xffff_ffff_ffff_ffffint + 0xffff_ffff_ffff_ffffint <= u128::MAX) by (nonlinear_arith)
                    requires
                        i < n <= 2000,
                ;
                assert((i + 1) * 0xffff_ffff_ffff_ffffint == i * 0xffff_ffff_ffff_ffffint + 0xffff_ffff_ffff_ffffint) by (nonlinear_arith);
            }
            let byte_len = s.as_bytes().len();
            total_length = total_length + byte_len as u128;
            let ip_hit = match &ip {
                Some(p) => p.is_match(s),
                None => false,
            };
            let url_hit = match &url {
                Some(p) => p.is_match(s),
                None => false,
            };
            if ip_hit || url_hit {
                network += 1;
            }
            if Self::mentions_suspicious_path(s) {
                suspicious += 1;
            }
            i += 1;
        }
        StringFeature {
            string_count: total_count,
            classified_count: n,
            total_length,
            network_indicators_count: network,
            suspicious_paths_count: suspicious,
        }
    }

    fn mentions_suspicious_path(s: &str) -> (r: bool)
        ensures
            r == has_suspicious_path(s@),
    {
        let mut k: usize = 0;
        while k < 5
            invariant
                k <= 5,
                forall|j: int| 0 <= j < k ==> !crate::text::contains_sub(vstd::utf8::encode_utf8(s@), #[trigger] SUSPICIOUS_PATHS@[j].spec_bytes()),
            decreases 5 - k,
        {
            if str_contains(s, SUSPICIOUS_PATHS[k]) {
                return true;
            }
            k += 1;
        }
        false
    }
}

proof fn lemma_scan_runs_shape(bytes: Seq<u8>)
    ensures
        forall|i: int| 0 <= i < scan_runs(bytes).0.len() ==> (#[trigger] scan_runs(bytes).0[i]).len() > 3
            && forall|j: int| 0 <= j < scan_runs(bytes).0[i].len() ==> is_text_byte(scan_runs(bytes).0[i][j]),
        forall|j: int| 0 <= j < scan_runs(bytes).1.len() ==> is_text_byte(#[trigger] scan_runs(bytes).1[j]),
    decreases bytes.len(),
{
    if bytes.len() > 0 {
        let prev = bytes.drop_last();
        lemma_scan_runs_shape(prev);
        let runs = scan_runs(prev).0;
        let cur = scan_runs(prev).1;
        let b = bytes.last();
        if is_text_byte(b) {
            assert(scan_runs(bytes) == (runs, cur.push(b)));
            assert forall|j: int| 0 <= j < cur.push(b).len() implies is_text_byte(#[trigger] cur.push(b)[j]) by {
                if j < cur.len() {
                    assert(cur.push(b)[j] == cur[j]);
                }
            }
        } else if cur.len() > 3 {
            assert(scan_runs(bytes) == (runs.push(cur), Seq::<u8>::empty()));
            assert forall|i: int| 0 <= i < runs.push(cur).len() implies (#[trigger] runs.push(cur)[i]).len() > 3
                && forall|j: int| 0 <= j < runs.push(cur)[i].len() ==> is_text_byte(runs.push(cur)[i][j]) by {
                if i < runs.len() {
                    assert(runs.push(cur)[i] == runs[i]);
                }
            }
        } else {
            assert(scan_runs(bytes) == (runs, Seq::<u8>::empty()));
        }
    }
}

/// Every string taken from `.rodata` is a run of more than three printable
/// ASCII characters (or spaces).
pub proof fn lemma_text_runs_printable(bytes: Seq<u8>)
    ensures
        forall|i: int| 0 <= i < text_runs(bytes).len() ==> (#[trigger] text_runs(bytes)[i]).len() > 3
            && forall|j: int| 0 <= j < text_runs(bytes)[i].len() ==> is_text_byte(text_runs(bytes)[i][j]),
{
    lemma_scan_runs_shape(bytes);
}

/// A string is suspicious exactly when it mentions `/usr`, `/bin`, `/etc`,
/// `/tmp` or `/opt`. When every classified string is suspicious the count is
/// the number of classified strings; when none is, it is 0.
pub proof fn lemma_suspicious_paths(t: Seq<char>, f: &StringFeature, all: Seq<Seq<char>>)
    ensures
        has_suspicious_path(t) <==> (
            crate::text::contains_sub(vstd::utf8::encode_utf8(t), "/usr".spec_bytes())
            || crate::text::contains_sub(vstd::utf8::encode_utf8(t), "/bin".spec_bytes())
            || crate::text::contains_sub(vstd::utf8::encode_utf8(t), "/etc".spec_bytes())
            || crate::text::contains_sub(vstd::utf8::encode_utf8(t), "/tmp".spec_bytes())
            || crate::text::contains_sub(vstd::utf8::encode_utf8(t), "/opt".spec_bytes())
        ),
        is_string_feature_of(f, all) && (forall|i: int| 0 <= i < f.classified_count ==> has_suspicious_path(#[trigger] all[i]))
            ==> f.suspicious_paths_count == f.classified_count,
        is_string_feature_of(f, all) && (forall|i: int| 0 <= i < f.classified_count ==> !has_suspicious_path(#[trigger] all[i]))
            ==> f.suspicious_paths_count == 0,
{
    if crate::text::contains_sub(vstd::utf8::encode_utf8(t), "/usr".spec_bytes()) { assert(SUSPICIOUS_PATHS@[0] == "/usr"); }
    if crate::text::contains_sub(vstd::utf8::encode_utf8(t), "/bin".spec_bytes()) { assert(SUSPICIOUS_PATHS@[1] == "/bin"); }
    if crate::text::contains_sub(vstd::utf8::encode_utf8(t), "/etc".spec_bytes()) { assert(SUSPICIOUS_PATHS@[2] == "/etc"); }
    if crate::text::contains_sub(vstd::utf8::encode_utf8(t), "/tmp".spec_bytes()) { assert(SUSPICIOUS_PATHS@[3] == "/tmp"); }
    if crate::text::contains_sub(vstd::utf8::encode_utf8(t), "/opt".spec_bytes()) { assert(SUSPICIOUS_PATHS@[4] == "/opt"); }
    if has_suspicious_path(t) {
        let k = choose|k: int| 0 <= k < 5 && crate::text::contains_sub(vstd::utf8::encode_utf8(t), #[trigger] SUSPICIOUS_PATHS@[k].spec_bytes());
        if k == 0 { assert(SUSPICIOUS_PATHS@[0] == "/usr"); }
        if k == 1 { assert(SUSPICIOUS_PATHS@[1] == "/bin"); }
        if k == 2 { assert(SUSPICIOUS_PATHS@[2] == "/etc"); }
        if k == 3 { assert(SUSPICIOUS_PATHS@[3] == "/tmp"); }
        if k == 4 { assert(SUSPICIOUS_PATHS@[4] == "/opt"); }
    }
    if is_string_feature_of(f, all) {
        let n = f.classified_count as int;
        lemma_suspicious_extremes(all.take(n));
        assert forall|i: int| 0 <= i < all.take(n).len() implies all.take(n)[i] == all[i] by {}
    }
}

proof fn lemma_suspicious_extremes(s: Seq<Seq<char>>)
    ensures
        (forall|i: int| 0 <= i < s.len() ==> has_suspicious_path(#[trigger] s[i])) ==> suspicious_count(s) == s.len(),
        (forall|i: int| 0 <= i < s.len() ==> !has_suspicious_path(#[trigger] s[i])) ==> suspicious_count(s) == 0,
    decreases s.len(),
{
    if s.len() > 0 {
        lemma_suspicious_extremes(s.drop_last());
        assert(forall|i: int| 0 <= i < s.drop_last().len() ==> s.drop_last()[i] == s[i]);
        assert(s.last() == s[s.len() - 1]);
    }
}

} // verus!
