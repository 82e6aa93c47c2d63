//! Assembling the dataset: CSV columns and the stratified train/validation/test split.
use rand::seq::SliceRandom;
use vstd::prelude::*;

use crate::architecture::CSV_COLS;
use crate::text::decimal;

verus! {

/// Feature columns between the byte frequencies and the local binary pattern histogram.
pub const MIDDLE_COLUMNS: [&'static str; 33] = [
    "is_64_bit",
    "is_shared_object",
    "entry_point_offset_ratio",
    "is_stripped",
    "mov_ratio",
    "arith_ratio",
    "logic_ratio",
    "control_flow_ratio",
    "system_ratio",
    "instr_density",
    "dyn_lib_count",
    "total_import_count",
    "file_io_api",
    "network_api",
    "process_api",
    "block_entropy_mean",
    "block_entropy_std",
    "edge_density",
    "glcm_contrast",
    "glcm_homogeneity",
    "glcm_energy",
    "string_count",
    "avg_string_length",
    "net_indicators",
    "susp_paths",
    "section_count",
    "segment_count",
    "rwx_sections",
    "wx_segments",
    "max_sect_entropy",
    "avg_sect_entropy",
    "empty_sect_count",
    "code_data_ratio",
];

/// Packing and relocation columns, after the local binary pattern histogram.
pub const PACKING_COLUMNS: [&'static str; 9] = [
    "file_to_section_size_ratio",
    "section_table_inconsistent",
    "entry_point_outside_text",
    "nonstandard_section_name_count",
    "known_packer_signature_found",
    "reloc_dyn_count",
    "reloc_plt_count",
    "nonstandard_reloc_type_count",
    "reloc_total_to_filesize_ratio",
];

/// `prefix` followed by 0, 1, ..., n - 1.
pub open spec fn numbered(prefix: Seq<char>, n: nat) -> Seq<Seq<char>> {
    Seq::new(n, |i: int| prefix + crate::text::spec_decimal(i as nat))
}

/// The texts of string literals.
pub open spec fn literal_texts(s: Seq<&str>) -> Seq<Seq<char>> {
    s.map_values(|t: &str| t@)
}

/// The feature columns of the dataset, in order.
pub open spec fn feature_columns() -> Seq<Seq<char>> {
    seq!["global_entropy"@] + numbered("byte_"@, 256) + literal_texts(MIDDLE_COLUMNS@) + numbered("lbp_"@, 256)
        + literal_texts(PACKING_COLUMNS@) + literal_texts(CSV_COLS@)
}

/// The parts joined with `sep` between consecutive ones.
pub open spec fn joined(parts: Seq<Seq<char>>, sep: Seq<char>) -> Seq<char>
    decreases parts.len(),
{
    if parts.len() == 0 {
        seq![]
    } else if parts.len() == 1 {
        parts[0]
    } else {
        joined(parts.drop_last(), sep) + sep + parts.last()
    }
}

/// Joins the strings with `sep` between consecutive ones.
pub fn join(parts: &Vec<String>, sep: &str) -> (r: String)
    ensures
        r@ == joined(crate::text::texts(parts@), sep@),
{
    let mut r = String::new();
    let mut i: usize = 0;
    while i < parts.len()
        invariant
            i <= parts@.len(),
            r@ == joined(crate::text::texts(parts@).take(i as int), sep@),
        decreases parts@.len() - i,
    {
        assert(crate::text::texts(parts@).take(i + 1).drop_last() == crate::text::texts(parts@).take(i as int));
        if i > 0 {
            r.append(sep);
        }
        r.append(parts[i].as_str());
        i += 1;
    }
    assert(crate::text::texts(parts@).take(parts@.len() as int) == crate::text::texts(parts@));
    r
}

/// Appends `prefix0`, ..., `prefix(n-1)` to `cols`.
fn push_numbered(cols: &mut Vec<String>, prefix: &str, n: u64)
    ensures
        crate::text::texts(final(cols)@) == crate::text::texts(old(cols)@) + numbered(prefix@, n as nat),
{
    let mut i: u64 = 0;
    while i < n
        invariant
            i <= n,
            crate::text::texts(cols@) == crate::text::texts(old(cols)@) + numbered(prefix@, i as nat),
        decreases n - i,
    {
        let mut c = String::from_str(prefix);
        c.append(decimal(i).as_str());
        let ghost before = cols@;
        cols.push(c);
        assert(crate::text::texts(cols@) =~= crate::text::texts(before).push(c@));
        assert(numbered(prefix@, (i + 1) as nat) =~= numbered(prefix@, i as nat).push(prefix@ + crate::text::spec_decimal(i as nat)));
        assert(crate::text::texts(cols@) =~= crate::text::texts(old(cols)@) + numbered(prefix@, (i + 1) as nat));
        i += 1;
    }
}

/// Appends the string literals of `list` to `cols`.
fn push_literals(cols: &mut Vec<String>, list: &[&str])
    ensures
        crate::text::texts(final(cols)@) == crate::text::texts(old(cols)@) + literal_texts(list@),
{
    let mut k: usize = 0;
    while k < list.len()
        invariant
            k <= list@.len(),
            crate::text::texts(cols@) == crate::text::texts(old(cols)@) + literal_texts(list@.subrange(0, k as int)),
        decreases list@.len() - k,
    {
        let ghost before = cols@;
        let item = String::from_str(list[k]);
        cols.push(item);
        assert(crate::text::texts(cols@) =~= crate::text::texts(before).push(list@[k as int]@));
        assert(literal_texts(list@.subrange(0, k + 1)) =~= literal_texts(list@.subrange(0, k as int)).push(list@[k as int]@));
        assert(crate::text::texts(cols@) =~= crate::text::texts(old(cols)@) + literal_texts(list@.subrange(0, k + 1)));
        k += 1;
    }
    assert(list@.subrange(0, list@.len() as int) == list@);
}

/// The feature columns of the dataset.
pub fn feature_column_names() -> (r: Vec<String>)
    ensures
        crate::text::texts(r@) == feature_columns(),
{
    let mut cols: Vec<String> = Vec::new();
    cols.push(String::from_str("global_entropy"));
    push_numbered(&mut cols, "byte_", 256);
    push_literals(&mut cols, MIDDLE_COLUMNS.as_slice());
    push_numbered(&mut cols, "lbp_", 256);
    push_literals(&mut cols, PACKING_COLUMNS.as_slice());
    push_literals(&mut cols, CSV_COLS.as_slice());
    assert(crate::text::texts(cols@) =~= feature_columns());
    cols
}

/// The feature columns joined by commas: the CSV header after
/// `filename,image_name,label,`.
pub fn header() -> (r: String)
    ensures
        r@ == joined(feature_columns(), ","@),
{
    join(&feature_column_names(), ",")
}

/// Cuts `class` into its first `n_train` items, the next `n_val`, and the
/// rest; each cut is clamped to what is left.
pub fn split_class<T>(class: Vec<T>, n_train: usize, n_val: usize) -> (r: (Vec<T>, Vec<T>, Vec<T>))
    ensures
        ({
            let n = class@.len() as int;
            let t = if n_train < n { n_train as int } else { n };
            let v = if n_val < n - t { n_val as int } else { n - t };
            &&& r.0@ == class@.subrange(0, t)
            &&& r.1@ == class@.subrange(t, t + v)
            &&& r.2@ == class@.subrange(t + v, n)
        }),
{
    let mut train = class;
    let n = train.len();
    let t = if n_train < n { n_train } else { n };
    let mut rest = train.split_off(t);
    let v = if n_val < rest.len() { n_val } else { rest.len() };
    let test = rest.split_off(v);
    (train, rest, test)
}

/// Stratified split: each class is cut on its own (`*_cuts` give its train
/// and validation sizes) and the parts of the two classes are concatenated,
/// malware first.
pub fn stratified_split<T>(malware: Vec<T>, goodware: Vec<T>, malware_cuts: (usize, usize), goodware_cuts: (usize, usize)) -> (r: (Vec<T>, Vec<T>, Vec<T>))
    ensures
        ({
            let (m0, m1, m2) = spec_cut(malware@, malware_cuts);
            let (g0, g1, g2) = spec_cut(goodware@, goodware_cuts);
            &&& r.0@ == m0 + g0
            &&& r.1@ == m1 + g1
            &&& r.2@ == m2 + g2
        }),
{
    let (mut train, mut val, mut test) = split_class(malware, malware_cuts.0, malware_cuts.1);
    let (mut g_train, mut g_val, mut g_test) = split_class(goodware, goodware_cuts.0, goodware_cuts.1);
    train.append(&mut g_train);
    val.append(&mut g_val);
    test.append(&mut g_test);
    (train, val, test)
}

/// `rand::seq::SliceRandom::shuffle` of `v`, with the generator `rand::rng()`.
///
/// Trusted: the result is a permutation of `v` (the source only swaps
/// elements of the slice); which permutation comes out rests on chance and
/// is not stated.
#[verifier::external_body]
fn shuffle<T>(v: &mut Vec<T>)
    ensures
        final(v)@.to_multiset() == old(v)@.to_multiset(),
{
    v.shuffle(&mut rand::rng());
}

/// The train, validation and test sets of a shuffled stratified split: `r`
/// holds, up to order, the parts of the classes `m` and `g` (each a
/// permutation of the class it was shuffled from).
pub open spec fn is_shuffled_split<T>(
    r: (Seq<T>, Seq<T>, Seq<T>),
    m: Seq<T>,
    g: Seq<T>,
    malware_cuts: (usize, usize),
    goodware_cuts: (usize, usize),
) -> bool {
    let (m0, m1, m2) = spec_cut(m, malware_cuts);
    let (g0, g1, g2) = spec_cut(g, goodware_cuts);
    &&& r.0.to_multiset() == (m0 + g0).to_multiset()
    &&& r.1.to_multiset() == (m1 + g1).to_multiset()
    &&& r.2.to_multiset() == (m2 + g2).to_multiset()
}

/// Stratified split of shuffled classes: each class is shuffled, cut as
/// `stratified_split` cuts it, and each of the three sets is shuffled again.
/// Every row lands in exactly one set, and each set takes from each class the
/// number of rows that its cut gives.
pub fn shuffled_split<T>(malware: Vec<T>, goodware: Vec<T>, malware_cuts: (usize, usize), goodware_cuts: (usize, usize)) -> (r: (Vec<T>, Vec<T>, Vec<T>))
    ensures
        exists|m: Seq<T>, g: Seq<T>|
            #![trigger m.to_multiset(), g.to_multiset()]
            m.to_multiset() == malware@.to_multiset() && g.to_multiset() == goodware@.to_multiset()
                && is_shuffled_split((r.0@, r.1@, r.2@), m, g, malware_cuts, goodware_cuts),
{
    let mut malware = malware;
    let mut goodware = goodware;
    shuffle(&mut malware);
    shuffle(&mut goodware);
    let ghost m = malware@;
    let ghost g = goodware@;
    let (mut train, mut val, mut test) = stratified_split(malware, goodware, malware_cuts, goodware_cuts);
    shuffle(&mut train);
    shuffle(&mut val);
    shuffle(&mut test);
    assert(is_shuffled_split((train@, val@, test@), m, g, malware_cuts, goodware_cuts));
    (train, val, test)
}

/// A shuffled stratified split keeps every row exactly once: the three sets
/// together hold, up to order, the rows of both classes, and each set has
/// as many rows as its cuts of the two classes.
pub proof fn lemma_shuffled_split_keeps_rows<T>(
    r: (Seq<T>, Seq<T>, Seq<T>),
    malware: Seq<T>,
    goodware: Seq<T>,
    m: Seq<T>,
    g: Seq<T>,
    malware_cuts: (usize, usize),
    goodware_cuts: (usize, usize),
)
    requires
        m.to_multiset() == malware.to_multiset(),
        g.to_multiset() == goodware.to_multiset(),
        is_shuffled_split(r, m, g, malware_cuts, goodware_cuts),
    ensures
        (r.0 + r.1 + r.2).to_multiset() == (malware + goodware).to_multiset(),
        r.0.len() == spec_cut(malware, malware_cuts).0.len() + spec_cut(goodware, goodware_cuts).0.len(),
        r.1.len() == spec_cut(malware, malware_cuts).1.len() + spec_cut(goodware, goodware_cuts).1.len(),
        r.2.len() == spec_cut(malware, malware_cuts).2.len() + spec_cut(goodware, goodware_cuts).2.len(),
{
    broadcast use vstd::seq_lib::lemma_multiset_commutative, vstd::seq_lib::to_multiset_len;
    let (m0, m1, m2) = spec_cut(m, malware_cuts);
    let (g0, g1, g2) = spec_cut(g, goodware_cuts);
    lemma_cut_partitions(m, malware_cuts);
    lemma_cut_partitions(g, goodware_cuts);
    assert(m.len() == m.to_multiset().len() && malware.len() == malware.to_multiset().len());
    assert(g.len() == g.to_multiset().len() && goodware.len() == goodware.to_multiset().len());
    assert((r.0 + r.1 + r.2).to_multiset() =~= (r.0 + r.1).to_multiset().add(r.2.to_multiset()));
    assert((r.0 + r.1).to_multiset() =~= r.0.to_multiset().add(r.1.to_multiset()));
    assert(m.to_multiset() =~= (m0 + m1).to_multiset().add(m2.to_multiset()));
    assert((m0 + m1).to_multiset() =~= m0.to_multiset().add(m1.to_multiset()));
    assert(g.to_multiset() =~= (g0 + g1).to_multiset().add(g2.to_multiset()));
    assert((g0 + g1).to_multiset() =~= g0.to_multiset().add(g1.to_multiset()));
    assert((m0 + g0).to_multiset() =~= m0.to_multiset().add(g0.to_multiset()));
    assert((m1 + g1).to_multiset() =~= m1.to_multiset().add(g1.to_multiset()));
    assert((m2 + g2).to_multiset() =~= m2.to_multiset().add(g2.to_multiset()));
    assert((malware + goodware).to_multiset() =~= malware.to_multiset().add(goodware.to_multiset()));
    assert((r.0 + r.1 + r.2).to_multiset() =~= (malware + goodware).to_multiset());
    assert(r.0.len() == r.0.to_multiset().len());
    assert(r.1.len() == r.1.to_multiset().len());
    assert(r.2.len() == r.2.to_multiset().len());
    assert((m0 + g0).len() == (m0 + g0).to_multiset().len());
    assert((m1 + g1).len() == (m1 + g1).to_multiset().len());
    assert((m2 + g2).len() == (m2 + g2).to_multiset().len());
}

/// The three parts that `split_class` cuts `class` into.
pub open spec fn spec_cut<T>(class: Seq<T>, cuts: (usize, usize)) -> (Seq<T>, Seq<T>, Seq<T>) {
    let n = class.len() as int;
    let t = if cuts.0 < n { cuts.0 as int } else { n };
    let v = if cuts.1 < n - t { cuts.1 as int } else { n - t };
    (class.subrange(0, t), class.subrange(t, t + v), class.subrange(t + v, n))
}

/// Splitting a class loses and duplicates nothing: the three parts, in
/// order, are the class, so their sizes add up to the class size.
pub proof fn lemma_cut_partitions<T>(class: Seq<T>, cuts: (usize, usize))
    ensures
        ({
            let (a, b, c) = spec_cut(class, cuts);
            &&& a + b + c == class
            &&& a.len() + b.len() + c.len() == class.len()
        }),
{
    let (a, b, c) = spec_cut(class, cuts);
    assert(a + b + c =~= class);
}

/// The header has a fixed number of feature columns: 1 global entropy, 256
/// byte frequencies, 33 scalar features, 256 local binary pattern bins, 9
/// packing and relocation features and 5 architecture flags.
pub proof fn lemma_feature_column_count()
    ensures
        feature_columns().len() == 560,
{
}

} // verus!
