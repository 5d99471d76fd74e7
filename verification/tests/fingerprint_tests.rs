use cdrive_cleaner::services::fingerprint_cache::{
    compute_md5, compute_xxhash, find_duplicates, fingerprint_of, hex_string, hex_u64, still_valid,
};

#[test]
fn digests_in_hex() {
    assert_eq!(compute_md5(b"abc"), "900150983cd24fb0d6963f7d28e17f72");
    assert_eq!(compute_md5(b""), "d41d8cd98f00b204e9800998ecf8427e");
    assert_eq!(compute_xxhash(b""), format!("{:016x}", xxhash_rust::xxh3::xxh3_64(b"")));
    assert_eq!(compute_xxhash(b"abc").len(), 16);
    assert_eq!(hex_string(&[0, 15, 16, 255]), "000f10ff");
    assert_eq!(hex_u64(0xab), "00000000000000ab");
    assert_eq!(hex_u64(u64::MAX), "ffffffffffffffff");
}

#[test]
fn stored_fingerprints_stay_valid_until_change() {
    let fp = fingerprint_of("C:\\a", b"abc", 3, "2024-01-01 00:00:00", "now");
    assert_eq!(fp.md5_hash, "900150983cd24fb0d6963f7d28e17f72");
    assert!(still_valid(&fp, 3, "2024-01-01 00:00:00"));
    assert!(!still_valid(&fp, 4, "2024-01-01 00:00:00"));
    assert!(!still_valid(&fp, 3, "2024-01-02 00:00:00"));
}

#[test]
fn duplicates_are_grouped() {
    let entries = vec![
        ("a".to_string(), "h1".to_string()),
        ("b".to_string(), "h2".to_string()),
        ("c".to_string(), "h1".to_string()),
        ("d".to_string(), "h3".to_string()),
        ("e".to_string(), "h2".to_string()),
        ("f".to_string(), "h1".to_string()),
    ];
    let groups = find_duplicates(&entries);
    assert_eq!(groups, vec![
        vec!["a".to_string(), "c".to_string(), "f".to_string()],
        vec!["b".to_string(), "e".to_string()],
    ]);
    assert!(find_duplicates(&entries[..2]).is_empty());
}
