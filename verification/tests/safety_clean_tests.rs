use cdrive_cleaner::error::AppError;
use cdrive_cleaner::models::clean::{CleanAction, CleanPriority, CleanTask};
use cdrive_cleaner::models::scan::{FileMetadata, RiskLevel, ScanCategory};
use cdrive_cleaner::services::clean_engine::CleanEngine;
use cdrive_cleaner::services::file_walker::FileWalker;
use cdrive_cleaner::services::safety_guard::{ProtectionLevel, SafetyGuard};

fn task(id: &str, path: &str) -> CleanTask {
    CleanTask {
        id: id.to_string(),
        target_id: id.to_string(),
        target_path: path.to_string(),
        target_name: id.to_string(),
        action: CleanAction::Delete,
        priority: CleanPriority::Normal,
        risk_level: RiskLevel::Low,
        size: 100,
        file_count: 2,
        backup_required: true,
    }
}

fn meta(path: &str) -> FileMetadata {
    FileMetadata {
        path: path.to_string(),
        name: String::new(),
        size: 1,
        modified_at: String::new(),
        created_at: String::new(),
        is_directory: false,
        extension: String::new(),
        category: ScanCategory::Other,
        hash: String::new(),
    }
}

#[test]
fn layers_of_protection() {
    let g = SafetyGuard::new("C:\\Users\\u");
    let sys = g.check_path_safety("C:\\Windows\\System32\\drivers\\x.txt");
    assert!(!sys.is_safe);
    assert_eq!(sys.risk_level, RiskLevel::Critical);
    assert_eq!(sys.protection_level, ProtectionLevel::Level1DirectoryWhitelist);
    assert!(sys.reason.starts_with("一级防护：系统核心目录白名单 - "));
    let temp = g.check_path_safety("C:\\Windows\\Temp\\a.tmp");
    assert!(temp.is_safe);
    assert_eq!(temp.risk_level, RiskLevel::Safe);
    assert_eq!(temp.protection_level, ProtectionLevel::NoProtection);
    let dll = g.check_path_safety("D:\\tools\\a.dll");
    assert!(!dll.is_safe);
    assert_eq!(dll.risk_level, RiskLevel::High);
    assert_eq!(dll.reason, "二级防护：系统文件类型白名单 - .dll");
    let doc = g.check_path_safety("C:\\Users\\u\\Documents\\a.txt");
    assert!(!doc.is_safe);
    assert_eq!(doc.protection_level, ProtectionLevel::PrivacyProtection);
    assert_eq!(doc.risk_level, RiskLevel::Medium);
}

#[test]
fn confirmation_and_hiding() {
    let g = SafetyGuard::new("C:\\Users\\u");
    assert!(!g.requires_confirmation(&RiskLevel::Safe, true));
    assert!(g.requires_confirmation(&RiskLevel::Low, true));
    assert!(!g.requires_confirmation(&RiskLevel::Low, false));
    assert!(g.requires_confirmation(&RiskLevel::High, false));
    assert!(g.is_hidden_for_beginner(&RiskLevel::Critical));
    assert!(!g.is_hidden_for_beginner(&RiskLevel::Medium));
    let kept = g.filter_safe_files(&[meta("C:\\Windows\\x.txt"), meta("D:\\a.txt"), meta("D:\\b.sys")]);
    assert_eq!(kept.len(), 1);
    assert_eq!(kept[0].path, "D:\\a.txt");
}

#[test]
fn restore_points_are_found_again() {
    let mut e = CleanEngine::new("C:\\Users\\u");
    match e.begin_execute(0) {
        Err(AppError::CleanError(m)) => assert_eq!(m, "清理任务列表不能为空"),
        other => panic!("unexpected {:?}", other),
    }
    e.begin_execute(1).unwrap();
    assert!(e.is_cleaning());
    assert!(matches!(e.begin_execute(1), Err(AppError::CleanError(_))));
    e.finish_execute("rp1".to_string(), "now".to_string(), vec![task("t1", "D:\\x")], &[]);
    assert!(!e.is_cleaning());
    let pts = e.get_restore_points();
    assert_eq!(pts.len(), 1);
    assert_eq!(pts[0].description, "清理前备份 - 1 个任务");
    let back = e.restore_tasks("rp1").unwrap();
    assert_eq!(back.len(), 1);
    assert_eq!(back[0].id, "t1");
    match e.restore_tasks("nope") {
        Err(AppError::CleanError(m)) => assert_eq!(m, "还原点不存在: nope"),
        other => panic!("unexpected {:?}", other),
    }
}

#[test]
fn preview_warns_about_protected_tasks() {
    let e = CleanEngine::new("C:\\Users\\u");
    let p = e.preview(&[task("ok", "D:\\tmp"), task("sys", "C:\\Windows\\x")]).unwrap();
    assert_eq!(p.total_size, 200);
    assert_eq!(p.total_files, 4);
    assert_eq!(p.estimated_time_ms, 40);
    assert_eq!(p.warnings.len(), 1);
    assert!(p.warnings[0].starts_with("「sys」: 一级防护"));
    assert!(e.guard_task(&task("ok", "D:\\tmp"), 5).is_none());
    let blocked = e.guard_task(&task("sys", "C:\\Windows\\x"), 5).unwrap();
    assert!(!blocked.success);
    assert_eq!(blocked.errors[0].error_code, "PROTECTED_BY_SAFETY_GUARD");
}

#[test]
fn walker_helpers() {
    assert_eq!(FileWalker::time_text(Some(0)), "1970-01-01 00:00:00");
    assert_eq!(FileWalker::time_text(None), "");
    assert!(FileWalker::is_excluded("C:\\Windows", &["C:\\Windows".to_string()]));
    assert!(!FileWalker::is_excluded("D:\\x", &["C:\\Windows".to_string()]));
    let w = FileWalker::new(4, 2);
    let mut batch = Vec::new();
    assert!(w.push_to_batch(&mut batch, meta("a")).is_none());
    let full = w.push_to_batch(&mut batch, meta("b")).unwrap();
    assert_eq!(full.len(), 2);
    assert!(batch.is_empty());
}
