use cdrive_cleaner::error::AppError;
use cdrive_cleaner::models::scan::ScanCategory;
use cdrive_cleaner::models::system::{DriveInfo, SystemInfo};
use cdrive_cleaner::services::file_walker::FileWalker;
use cdrive_cleaner::services::signature_verifier::SignatureVerifier;

fn drive(letter: &str, total: u64) -> DriveInfo {
    DriveInfo {
        letter: letter.to_string(),
        label: String::new(),
        file_system: "NTFS".to_string(),
        drive_type: "SSD".to_string(),
        total_size: total,
        available_space: 0,
        used_space: total,
    }
}

#[test]
fn describe_file_takes_name_extension_and_category() {
    let f = FileWalker::describe_file(
        "C:/Temp/Report.LOG",
        42,
        false,
        "2024-01-02 03:04:05".to_string(),
        String::new(),
    );
    assert_eq!(f.path, "C:/Temp/Report.LOG");
    assert_eq!(f.name, "Report.LOG");
    assert_eq!(f.extension, "log");
    assert_eq!(f.category, ScanCategory::Temp);
    assert_eq!(f.size, 42);
    assert!(!f.is_directory);
    assert_eq!(f.modified_at, "2024-01-02 03:04:05");
    assert_eq!(f.created_at, "");
    assert_eq!(f.hash, "");
}

#[test]
fn describe_file_by_extension_elsewhere() {
    let f = FileWalker::describe_file("D:/data/archive.ZIP", 1, false, String::new(), String::new());
    assert_eq!(f.name, "archive.ZIP");
    assert_eq!(f.extension, "zip");
    assert_eq!(f.category, ScanCategory::Download);
}

#[test]
fn c_drive_is_the_first_drive_lettered_c() {
    let info = SystemInfo {
        os_name: "Windows".to_string(),
        os_version: "11".to_string(),
        os_build: String::new(),
        hostname: "pc".to_string(),
        cpu_name: "cpu".to_string(),
        cpu_cores: 8,
        total_memory: 16,
        available_memory: 8,
        drives: vec![drive("D:", 1), drive("C:", 2), drive("C:", 3)],
    };
    let c = info.c_drive().expect("a C: drive");
    assert_eq!(c.total_size, 2);

    let none = SystemInfo { drives: vec![drive("D:", 1)], ..info.clone() };
    assert!(none.c_drive().is_none());
}

#[test]
fn verify_signature_of_missing_file_fails() {
    let v = SignatureVerifier::new();
    match v.verify_signature("C:\\nope.exe", false, None) {
        Err(AppError::FileSystemError(m)) => assert_eq!(m, "文件不存在: C:\\nope.exe"),
        other => panic!("unexpected {:?}", other),
    }
}

#[test]
fn verify_signature_without_platform_check_is_unsigned() {
    let v = SignatureVerifier::new();
    let info = v.verify_signature("a.exe", true, None).expect("ok");
    assert!(!info.is_signed && !info.is_microsoft && !info.is_trusted);
    assert_eq!(info.signer_name, "");
    assert_eq!(info.issuer, "");
}

#[test]
fn authenticode_facts_from_trust_and_signer() {
    let ms = SignatureVerifier::authenticode_info(false, Some("Microsoft Corporation".to_string()));
    assert!(ms.is_signed && ms.is_microsoft && !ms.is_trusted);
    assert_eq!(ms.signer_name, "Microsoft Corporation");

    let trusted = SignatureVerifier::authenticode_info(true, None);
    assert!(trusted.is_signed && !trusted.is_microsoft && trusted.is_trusted);

    let empty = SignatureVerifier::authenticode_info(false, Some(String::new()));
    assert!(!empty.is_signed && !empty.is_microsoft);

    let cn = SignatureVerifier::authenticode_info(false, Some("微软中国".to_string()));
    assert!(cn.is_microsoft);
}

#[test]
fn system_files_and_extensions() {
    let v = SignatureVerifier::new();
    assert!(v.is_system_file("C:\\Windows\\notepad.exe"));
    assert!(v.is_system_file("C:\\Program Files (x86)\\x"));
    assert!(!v.is_system_file("D:\\Windows"));
    assert!(v.is_system_extension("DLL"));
    assert!(v.is_system_extension("mui"));
    assert!(!v.is_system_extension("txt"));
}
