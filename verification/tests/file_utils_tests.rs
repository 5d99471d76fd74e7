use cdrive_cleaner::utils::file_utils::format_size;

fn float_reference(size: u64) -> String {
    let kb = 1024.0;
    let mb = kb * 1024.0;
    let gb = mb * 1024.0;
    let f = size as f64;
    if f >= gb {
        format!("{:.2} GB", f / gb)
    } else if f >= mb {
        format!("{:.2} MB", f / mb)
    } else if f >= kb {
        format!("{:.2} KB", f / kb)
    } else {
        format!("{} B", size)
    }
}

#[test]
fn format_size_bytes() {
    assert_eq!(format_size(0), "0 B");
    assert_eq!(format_size(512), "512 B");
    assert_eq!(format_size(1023), "1023 B");
}

#[test]
fn format_size_units() {
    assert_eq!(format_size(1024), "1.00 KB");
    assert_eq!(format_size(1536), "1.50 KB");
    assert_eq!(format_size(1024 * 1024), "1.00 MB");
    assert_eq!(format_size(5 * 1024 * 1024 * 1024), "5.00 GB");
}

#[test]
fn format_size_matches_float_formatting() {
    let mut samples: Vec<u64> = vec![u64::MAX, u64::MAX - 1, 1 << 63, (1 << 53) + 1, (1 << 53) + 3, (1 << 54) + 2, (1 << 54) + 6];
    for k in 1024u64..40_000 {
        samples.push(k);
    }
    for k in 0u64..5000 {
        samples.push(1024 * 1024 + k * 1311);
        samples.push((1u64 << 30) * 3 + k * 1_048_576 / 8);
        samples.push(k.wrapping_mul(0x9E37_79B9_7F4A_7C15));
    }
    for s in samples {
        assert_eq!(format_size(s), float_reference(s), "size {}", s);
    }
}
