use cdrive_cleaner::commands::{
    audit_page, migrate_analyze, migrate_execute, migrate_progress, scan_mode_of, used_space,
    whitelist_request, WhitelistAction,
};
use cdrive_cleaner::error::AppError;
use cdrive_cleaner::models::config::{WhitelistConfig, WhitelistEntry};
use cdrive_cleaner::models::scan::ScanMode;

#[test]
fn scan_modes() {
    assert!(matches!(scan_mode_of("deep"), ScanMode::Deep));
    assert!(matches!(scan_mode_of("quick"), ScanMode::Quick));
    assert!(matches!(scan_mode_of("other"), ScanMode::Quick));
}

#[test]
fn audit_pages() {
    assert_eq!(audit_page(None, None), (100, 0));
    assert_eq!(audit_page(Some(900), Some(20)), (500, 20));
    assert_eq!(audit_page(Some(7), None), (7, 0));
}

#[test]
fn whitelist_requests() {
    match whitelist_request("add", Some("C:\\x".into()), None) {
        Ok(WhitelistAction::Add { path, reason }) => {
            assert_eq!(path, "C:\\x");
            assert_eq!(reason, "用户手动添加");
        }
        other => panic!("unexpected {:?}", other),
    }
    assert!(matches!(whitelist_request("remove", Some("p".into()), None), Ok(WhitelistAction::Remove { .. })));
    match whitelist_request("add", None, None) {
        Err(AppError::ConfigError(m)) => assert_eq!(m, "路径不能为空"),
        other => panic!("unexpected {:?}", other),
    }
    match whitelist_request("drop", None, None) {
        Err(AppError::ConfigError(m)) => assert_eq!(m, "未知操作: drop"),
        other => panic!("unexpected {:?}", other),
    }
}

#[test]
fn migration_checks() {
    assert!(matches!(migrate_analyze(""), Err(AppError::MigrateError(_))));
    assert!(migrate_analyze("app").unwrap().is_empty());
    match migrate_execute("app", "") {
        Err(AppError::MigrateError(m)) => assert_eq!(m, "目标路径不能为空"),
        other => panic!("unexpected {:?}", other),
    }
    assert!(migrate_execute("app", "D:\\").is_ok());
    match migrate_progress("t1") {
        AppError::MigrateError(m) => assert_eq!(m, "迁移任务不存在: t1"),
        other => panic!("unexpected {:?}", other),
    }
    assert_eq!(used_space(10, 3), 7);
    assert_eq!(used_space(3, 10), 0);
}

fn entry(path: &str) -> WhitelistEntry {
    WhitelistEntry { id: path.to_string(), path: path.to_string(), reason: String::new(), added_at: String::new(), enabled: true }
}

#[test]
fn whitelist_add_and_remove() {
    let mut w = WhitelistConfig::from_entries(vec![entry("a"), entry("b")]);
    w.add_entry(entry("a"));
    assert_eq!(w.paths.len(), 3);
    w.remove_path("a");
    assert_eq!(w.paths.len(), 1);
    assert_eq!(w.paths[0].path, "b");
    assert!(w.global_enabled);
}
