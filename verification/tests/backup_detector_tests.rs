use cdrive_cleaner::models::clean::{CleanAction, CleanError, CleanPriority, CleanTask};
use cdrive_cleaner::models::scan::RiskLevel;
use cdrive_cleaner::plugins::auto_clean::AutoCleanPlugin;
use cdrive_cleaner::services::clean_engine::{after_backup, CleanEngine, RemoveDirStats};
use cdrive_cleaner::services::fingerprint_cache::{reuse_stored, FileFingerprint};
use cdrive_cleaner::services::software_detector::SoftwareDetector;

fn task(path: &str) -> CleanTask {
    CleanTask {
        id: "t1".to_string(),
        target_id: "t1".to_string(),
        target_path: path.to_string(),
        target_name: "x".to_string(),
        action: CleanAction::Delete,
        priority: CleanPriority::Normal,
        risk_level: RiskLevel::Low,
        size: 10,
        file_count: 3,
        backup_required: true,
    }
}

#[test]
fn auto_clean_settings_object() {
    let a = AutoCleanPlugin::new("2024-01-01 00:00:00");
    let config = &a.info().config;
    assert_eq!(config["schedule_hours"].as_u64(), Some(24));
    assert_eq!(config["min_free_space_gb"].as_u64(), Some(10));
    assert_eq!(config["auto_enabled"].as_bool(), Some(false));
    assert_eq!(config.as_object().map(|m| m.len()), Some(3));
}

#[test]
fn failed_backup_keeps_the_target() {
    let t = task("D:\\cache");
    assert!(after_backup(&t, Ok(()), 3).is_none());
    let refused = after_backup(&t, Err("磁盘已满".to_string()), 3).expect("refused");
    assert!(!refused.success);
    assert_eq!(refused.task_id, "t1");
    assert_eq!(refused.freed_space, 0);
    assert_eq!(refused.cleaned_files, 0);
    assert_eq!(refused.failed_files, 3);
    assert_eq!(refused.backup_path, "");
    assert_eq!(refused.elapsed_time_ms, 3);
    assert_eq!(refused.errors.len(), 1);
    assert_eq!(refused.errors[0].error_code, "BACKUP_FAILED");
    assert_eq!(refused.errors[0].file_path, "D:\\cache");
    assert_eq!(refused.errors[0].message, "备份失败: 磁盘已满");

    let mut no_backup = task("D:\\cache");
    no_backup.backup_required = false;
    assert!(after_backup(&no_backup, Err("x".to_string()), 3).is_none());
}

#[test]
fn engine_guard_refuses_protected_extension() {
    let e = CleanEngine::new("C:\\Users\\u");
    let r = e.guard_task(&task("D:\\tools\\a.dll"), 7).expect("refused");
    assert!(!r.success);
    assert_eq!(r.failed_files, 3);
    assert_eq!(r.errors.len(), 1);
    assert_eq!(r.errors[0].error_code, "PROTECTED_BY_SAFETY_GUARD");
    assert_eq!(r.errors[0].file_path, "D:\\tools\\a.dll");
}

#[test]
fn stored_fingerprint_reused_only_when_unchanged() {
    let fp = FileFingerprint {
        file_path: "a".to_string(),
        md5_hash: "m".to_string(),
        xxhash: "x".to_string(),
        file_size: 5,
        modified_at: "2024-01-01 00:00:00".to_string(),
        computed_at: "2024-01-02 00:00:00".to_string(),
    };
    let hit = reuse_stored(Some(fp.clone()), 5, "2024-01-01 00:00:00").expect("hit");
    assert_eq!(hit.computed_at, "2024-01-02 00:00:00");
    assert_eq!(hit.xxhash, "x");
    assert!(reuse_stored(Some(fp.clone()), 6, "2024-01-01 00:00:00").is_none());
    assert!(reuse_stored(Some(fp), 5, "2024-01-03 00:00:00").is_none());
    assert!(reuse_stored(None, 5, "2024-01-01 00:00:00").is_none());
}

#[test]
fn removal_tally_counts_failures_with_errors() {
    let mut s = RemoveDirStats::new();
    s.record_removed(100);
    s.record_failure(CleanError {
        file_path: "a".to_string(),
        error_code: "DELETE_FAILED".to_string(),
        message: "busy".to_string(),
    });
    let mut sub = RemoveDirStats::new();
    sub.record_failure(CleanError {
        file_path: "b".to_string(),
        error_code: "RMDIR_FAILED".to_string(),
        message: "busy".to_string(),
    });
    s.absorb(sub);
    assert_eq!(s.failed, 2);
    assert_eq!(s.errors.len(), 2);
    assert_eq!(s.cleaned, 1);
    assert_eq!(s.freed, 100);
}

#[test]
fn detectors_in_order_make_detect_all() {
    let d = SoftwareDetector::new();
    let up = "C:\\Users\\u";
    let present = [true, false, false, true, true, false, true, true];
    let mut parts = Vec::new();
    parts.extend(d.detect_wechat_paths(up, &present[0..2]));
    parts.extend(d.detect_qq_paths(up, &present[2..4]));
    parts.extend(d.detect_wechat_work_paths(up, &present[4..5]));
    parts.extend(d.detect_chrome_cache(up, &present[5..7]));
    parts.extend(d.detect_edge_cache(up, &present[7..8]));
    let firefox = vec!["C:\\ff\\p1\\cache2".to_string()];
    parts.extend(d.detect_firefox_cache(&firefox));
    let all = d.detect_all(up, &present, &firefox);
    let paths = |v: &[cdrive_cleaner::services::software_detector::SoftwareCacheInfo]| {
        v.iter().map(|c| c.cache_path.clone()).collect::<Vec<_>>()
    };
    assert_eq!(paths(&parts), paths(&all));
    assert_eq!(
        paths(&all),
        vec![
            "C:\\Users\\u\\Documents\\WeChat Files".to_string(),
            "C:\\Users\\u\\AppData\\Roaming\\Tencent\\QQ".to_string(),
            "C:\\Users\\u\\Documents\\WXWork".to_string(),
            "C:\\Users\\u\\AppData\\Local\\Google\\Chrome\\User Data\\Default\\Code Cache".to_string(),
            "C:\\Users\\u\\AppData\\Local\\Microsoft\\Edge\\User Data\\Default\\Cache".to_string(),
            "C:\\ff\\p1\\cache2".to_string(),
        ]
    );
    assert_eq!(all[0].software_name, "微信");
    assert_eq!(all[5].category, "浏览器");
}
