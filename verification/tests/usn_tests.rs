use cdrive_cleaner::models::scan::ScanCategory;
use cdrive_cleaner::services::usn_scanner::{
    changed_files, parse_usn_records, reason_to_change_type, UsnChangeType, UsnEntry, UsnScanner,
};

fn record(usn: u64, reason: u32, name: &str) -> Vec<u8> {
    let units: Vec<u16> = name.encode_utf16().collect();
    let name_len = units.len() * 2;
    let len = 60 + name_len;
    let mut r = vec![0u8; len];
    r[0..4].copy_from_slice(&(len as u32).to_le_bytes());
    r[8..16].copy_from_slice(&usn.to_le_bytes());
    r[16..20].copy_from_slice(&reason.to_le_bytes());
    r[56..60].copy_from_slice(&(name_len as u32).to_le_bytes());
    for (i, u) in units.iter().enumerate() {
        r[60 + 2 * i..62 + 2 * i].copy_from_slice(&u.to_le_bytes());
    }
    r
}

#[test]
fn reasons_map_to_changes() {
    assert_eq!(reason_to_change_type(0x1), UsnChangeType::Created);
    assert_eq!(reason_to_change_type(0x8000 | 0x2), UsnChangeType::Created);
    assert_eq!(reason_to_change_type(0x2), UsnChangeType::Deleted);
    assert_eq!(reason_to_change_type(0x1_0000), UsnChangeType::Renamed);
    assert_eq!(reason_to_change_type(0x4), UsnChangeType::Modified);
}

#[test]
fn records_are_decoded() {
    let mut buf = vec![0u8; 8];
    buf.extend(record(7, 0x1, "新建.txt"));
    buf.extend(record(9, 0x2, "gone"));
    let n = buf.len() as u32;
    buf.extend(vec![0u8; 64]);
    let entries = parse_usn_records(&buf, n);
    assert_eq!(entries.len(), 2);
    assert_eq!(entries[0].usn, 7);
    assert_eq!(entries[0].file_name, "新建.txt");
    assert_eq!(entries[0].change_type, UsnChangeType::Created);
    assert_eq!(entries[1].usn, 9);
    assert_eq!(entries[1].change_type, UsnChangeType::Deleted);
    assert!(parse_usn_records(&buf, 7).is_empty());
}

#[test]
fn decoding_stops_at_a_bad_record() {
    let mut buf = vec![0u8; 8];
    buf.extend(record(1, 0x4, "a"));
    let mut bad = record(2, 0x4, "b");
    bad[0..4].copy_from_slice(&0u32.to_le_bytes());
    buf.extend(bad);
    let n = buf.len() as u32;
    let entries = parse_usn_records(&buf, n);
    assert_eq!(entries.len(), 1);
    assert_eq!(entries[0].file_name, "a");
}

#[test]
fn deletions_are_not_reported() {
    let es = vec![
        UsnEntry { usn: 1, file_name: "a".to_string(), change_type: UsnChangeType::Modified },
        UsnEntry { usn: 2, file_name: "b".to_string(), change_type: UsnChangeType::Deleted },
        UsnEntry { usn: 3, file_name: "c".to_string(), change_type: UsnChangeType::Renamed },
    ];
    let files = changed_files(&es);
    assert_eq!(files.len(), 2);
    assert_eq!(files[0].path, "a");
    assert_eq!(files[1].name, "c");
    assert_eq!(files[1].category, ScanCategory::Other);
    assert_eq!(files[1].size, 0);
}

#[test]
fn scanner_state() {
    let mut s = UsnScanner::new("c:");
    assert_eq!(s.volume_path(), "\\\\.\\C:");
    assert_eq!(s.get_last_usn(), 0);
    s.update_last_usn(u64::MAX);
    assert_eq!(s.get_last_usn(), u64::MAX);
    assert_eq!(s.start_usn(), -1);
}
