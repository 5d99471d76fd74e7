use cdrive_cleaner::store::audit_logger::{base64_decode, base64_encode, AuditLogger};

#[test]
fn base64_known_values() {
    assert_eq!(base64_encode(b"Man"), "TWFu");
    assert_eq!(base64_encode(b"Ma"), "TWE");
    assert_eq!(base64_encode(b"M"), "TQ");
    assert_eq!(base64_encode(b""), "");
    assert_eq!(base64_decode("TWFu").unwrap(), b"Man".to_vec());
    assert_eq!(base64_decode("TWE=").unwrap(), b"Ma".to_vec());
    assert!(base64_decode("T").is_none());
    assert!(base64_decode("T*Fu").is_none());
}

#[test]
fn base64_round_trip() {
    let data: Vec<u8> = (0..=255u8).collect();
    assert_eq!(base64_decode(&base64_encode(&data)).unwrap(), data);
}

#[test]
fn key_is_derived_the_same_way() {
    let k = AuditLogger::derive_key("seed");
    assert_eq!(k.len(), 32);
    assert_eq!(k, AuditLogger::derive_key("seed"));
    let mut h1 = k[0..8].to_vec();
    h1.reverse();
    assert_eq!(h1, k[16..24].to_vec());
    assert_ne!(k[0..8], k[8..16]);
}

#[test]
fn sealed_details_open_again() {
    let logger = AuditLogger::new();
    let nonce = [7u8; 12];
    let sealed = logger.encrypt_if_needed("删除 C:\\Temp\\a.tmp", &nonce);
    assert_ne!(sealed, "删除 C:\\Temp\\a.tmp");
    assert_eq!(logger.decrypt_if_needed(&sealed), "删除 C:\\Temp\\a.tmp");
    assert_eq!(logger.decrypt_if_needed("plain text"), "plain text");
    let empty = logger.encrypt_if_needed("", &nonce);
    assert_eq!(logger.decrypt_if_needed(&empty), "");
}

#[test]
fn records_and_rows() {
    let logger = AuditLogger::new();
    let rec = logger.log_record("clean", "C:\\x", Some("detail"), None, &[1u8; 12]);
    assert_eq!(rec.action, "clean");
    assert_eq!(rec.risk_level, "");
    assert_eq!(rec.encrypted, 1);
    let e = logger.row_to_entry(
        "id".to_string(),
        "clean".to_string(),
        "C:\\x".to_string(),
        rec.detail.clone(),
        "low".to_string(),
        "ts".to_string(),
        1,
    );
    assert_eq!(e.detail, "detail");
    let raw = logger.row_to_entry("i".into(), "a".into(), "p".into(), rec.detail.clone(), "r".into(), "t".into(), 0);
    assert_eq!(raw.detail, rec.detail);
    assert!(AuditLogger::query_sql(true).contains("WHERE action = ?1"));
    assert!(!AuditLogger::query_sql(false).contains("WHERE"));
}
