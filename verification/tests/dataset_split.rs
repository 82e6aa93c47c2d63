use progetto::dataset::{feature_column_names, header, join, shuffled_split, split_class, stratified_split};
use progetto::sample::Sample;

#[test]
fn header_columns_in_order() {
    let cols = feature_column_names();
    assert_eq!(cols.len(), 560);
    assert_eq!(cols[0], "global_entropy");
    assert_eq!(cols[1], "byte_0");
    assert_eq!(cols[256], "byte_255");
    assert_eq!(cols[257], "is_64_bit");
    assert_eq!(cols[290], "lbp_0");
    assert_eq!(cols[545], "lbp_255");
    assert_eq!(cols[546], "file_to_section_size_ratio");
    assert_eq!(cols[559], "arch_unsupported");
    let h = header();
    assert!(h.starts_with("global_entropy,byte_0,byte_1,"));
    assert!(h.ends_with(",arch_arm64,arch_unsupported"));
    assert_eq!(h.split(',').count(), 560);
}

#[test]
fn join_separates_consecutive_parts() {
    assert_eq!(join(&vec![], ","), "");
    assert_eq!(join(&vec!["a".to_string()], ","), "a");
    assert_eq!(join(&vec!["a".to_string(), "".to_string(), "c".to_string()], ","), "a,,c");
}

#[test]
fn split_class_rest_goes_to_test() {
    let (a, b, c) = split_class((0..10).collect::<Vec<u32>>(), 7, 2);
    assert_eq!(a, vec![0, 1, 2, 3, 4, 5, 6]);
    assert_eq!(b, vec![7, 8]);
    assert_eq!(c, vec![9]);
    let (a, b, c) = split_class(vec![1, 2, 3], 5, 5);
    assert_eq!((a.len(), b.len(), c.len()), (3, 0, 0));
    let (a, b, c) = split_class(Vec::<u8>::new(), 0, 0);
    assert!(a.is_empty() && b.is_empty() && c.is_empty());
}

#[test]
fn stratified_split_keeps_every_row() {
    let mal: Vec<u32> = (0..20).collect();
    let good: Vec<u32> = (100..110).collect();
    let (train, val, test) = stratified_split(mal, good, (14, 3), (7, 2));
    assert_eq!(train.len() + val.len() + test.len(), 30);
    assert_eq!(train.len(), 21);
    assert_eq!(val, vec![14, 15, 16, 107, 108]);
    assert_eq!(test, vec![17, 18, 19, 109]);
}

#[test]
fn image_buffer_pads_with_zeros() {
    let s = Sample::new("f".to_string(), "f".to_string(), vec![9, 8, 7]).unwrap();
    assert_eq!(s.image_buffer(2, 3), vec![9, 8, 7, 0, 0, 0]);
    assert_eq!(s.image_buffer(1, 2), vec![9, 8]);
}

#[test]
fn shuffled_split_keeps_every_row_once() {
    let malware: Vec<u32> = (0..20).collect();
    let goodware: Vec<u32> = (100..110).collect();
    let (train, val, test) = shuffled_split(malware, goodware, (14, 3), (7, 2));
    assert_eq!(train.len(), 14 + 7);
    assert_eq!(val.len(), 3 + 2);
    assert_eq!(test.len(), 3 + 1);
    let mut all: Vec<u32> = train.iter().chain(val.iter()).chain(test.iter()).copied().collect();
    all.sort();
    let mut expected: Vec<u32> = (0..20).chain(100..110).collect();
    expected.sort();
    assert_eq!(all, expected);
    assert_eq!(train.iter().filter(|&&x| x < 100).count(), 14);
    assert_eq!(val.iter().filter(|&&x| x >= 100).count(), 2);
}
