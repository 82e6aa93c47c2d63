use progetto::architecture::{ArchKind, CSV_COLS};
use progetto::byte_image::ImageFeature;
use progetto::byte_level::{byte_histogram, ByteLevelFeature};
use progetto::extraction_warnings::WarningLog;
use progetto::text::{ascii_lowercase, contains_bytes, decimal, str_contains, str_eq, to_hex_lower};

#[test]
fn arch_from_e_machine_known_values() {
    assert_eq!(ArchKind::from_e_machine(62), ArchKind::X86_64);
    assert_eq!(ArchKind::from_e_machine(3), ArchKind::X86);
    assert_eq!(ArchKind::from_e_machine(183), ArchKind::Arm64);
    assert_eq!(ArchKind::from_e_machine(40), ArchKind::Arm);
    assert_eq!(ArchKind::from_e_machine(8), ArchKind::Unsupported);
    assert_eq!(ArchKind::default(), ArchKind::Unsupported);
}

#[test]
fn arch_one_hot_single_position() {
    assert_eq!(ArchKind::X86.one_hot(), [1, 0, 0, 0, 0]);
    assert_eq!(ArchKind::X86_64.one_hot(), [0, 1, 0, 0, 0]);
    assert_eq!(ArchKind::Arm.one_hot(), [0, 0, 1, 0, 0]);
    assert_eq!(ArchKind::Arm64.one_hot(), [0, 0, 0, 1, 0]);
    assert_eq!(ArchKind::Unsupported.one_hot(), [0, 0, 0, 0, 1]);
    for a in [ArchKind::X86, ArchKind::X86_64, ArchKind::Arm, ArchKind::Arm64, ArchKind::Unsupported] {
        assert_eq!(a.one_hot().iter().map(|v| *v as u32).sum::<u32>(), 1);
    }
    assert_eq!(CSV_COLS[1], "arch_x86_64");
    assert_eq!(ArchKind::Arm64.name(), "Arm64");
}

#[test]
fn image_of_empty_file_is_one_zero_row() {
    let img = ImageFeature::extract(&[]);
    assert_eq!(img.width, 32);
    assert_eq!(img.height, 0);
    assert_eq!(img.matrix.len(), 1);
    assert_eq!(img.matrix[0], vec![0u8; 32]);
}

#[test]
fn image_rows_padded_with_zeros() {
    let data: Vec<u8> = (1..=33).collect();
    let img = ImageFeature::extract(&data);
    assert_eq!(img.width, 32);
    assert_eq!(img.height, 2);
    assert_eq!(img.matrix.len(), 2);
    assert_eq!(img.matrix[0][31], 32);
    assert_eq!(img.matrix[1][0], 33);
    assert_eq!(img.matrix[1][1], 0);
    for (i, b) in data.iter().enumerate() {
        assert_eq!(img.matrix[i / 32][i % 32], *b);
    }
}

#[test]
fn image_width_grows_with_size() {
    assert_eq!(ImageFeature::extract(&vec![0u8; 10_239]).width, 32);
    assert_eq!(ImageFeature::extract(&vec![0u8; 10_240]).width, 64);
    assert_eq!(ImageFeature::extract(&vec![0u8; 30_720]).width, 128);
    assert_eq!(ImageFeature::extract(&vec![0u8; 61_440]).width, 256);
    let img = ImageFeature::extract(&vec![7u8; 102_400]);
    assert_eq!(img.width, 384);
    assert_eq!(img.height, 267);
}

#[test]
fn byte_level_refuses_empty_input() {
    assert_eq!(ByteLevelFeature::extract(&[]).err(), Some("raw_data is empty".to_string()));
}

#[test]
fn byte_level_counts_and_sha256() {
    let f = ByteLevelFeature::extract(b"abc").unwrap();
    assert_eq!(f.total, 3);
    assert_eq!(f.counts[b'a' as usize], 1);
    assert_eq!(f.counts[b'c' as usize], 1);
    assert_eq!(f.counts[0], 0);
    assert_eq!(f.counts.iter().sum::<usize>(), 3);
    assert_eq!(f.sha256, "ba7816bf8f01cfea414140de5dae2223b00361a396177a9cb410ff61f20015ad");
}

#[test]
fn byte_histogram_counts_repeats() {
    let h = byte_histogram(&[5, 5, 5, 0, 255]);
    assert_eq!(h.len(), 256);
    assert_eq!(h[5], 3);
    assert_eq!(h[0], 1);
    assert_eq!(h[255], 1);
    assert_eq!(h.iter().sum::<usize>(), 5);
}

#[test]
fn warning_log_push_and_lines() {
    let mut log = WarningLog::new();
    assert!(log.is_empty());
    log.push("strings", "table unreadable".to_string());
    log.push("instruction", "2 sections".to_string());
    assert!(!log.is_empty());
    assert_eq!(log.warnings.len(), 2);
    assert_eq!(log.warnings[0].module, "strings");
    let lines = log.lines("a.out");
    assert_eq!(lines, vec![
        "[warn] a.out :: strings: table unreadable".to_string(),
        "[warn] a.out :: instruction: 2 sections".to_string(),
    ]);
    assert!(WarningLog::default().is_empty());
}

#[test]
fn text_helpers_exact_values() {
    assert_eq!(decimal(0), "0");
    assert_eq!(decimal(255), "255");
    assert_eq!(decimal(18446744073709551615), "18446744073709551615");
    assert_eq!(to_hex_lower(&[0x00, 0xab, 0x0f, 0xff]), "00ab0fff");
    assert!(contains_bytes(b"xxUPX!yy", b"UPX!"));
    assert!(!contains_bytes(b"UPX", b"UPX!"));
    assert!(!contains_bytes(b"anything", b""));
    assert!(str_contains("see /usr/lib", "/usr"));
    assert!(!str_contains("usr", "/usr"));
    assert!(str_eq(".text", ".text"));
    assert!(!str_eq(".text", ".tex"));
    assert_eq!(ascii_lowercase(b"MOV.B"), b"mov.b".to_vec());
}

#[test]
fn width_for_size_thresholds() {
    assert_eq!(ImageFeature::width_for_size(0), 32);
    assert_eq!(ImageFeature::width_for_size(10_239), 32);
    assert_eq!(ImageFeature::width_for_size(10_240), 64);
    assert_eq!(ImageFeature::width_for_size(61_440), 256);
    assert_eq!(ImageFeature::width_for_size(716_799), 768);
    assert_eq!(ImageFeature::width_for_size(716_800), 1024);
}

#[test]
fn warning_log_empty_only_without_pushes() {
    for k in 0..4 {
        let mut log = WarningLog::default();
        for i in 0..k {
            log.push("m", format!("w{}", i));
        }
        assert_eq!(log.is_empty(), k == 0);
        assert_eq!(log.warnings.len(), k);
    }
}
