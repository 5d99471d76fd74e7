use cdrive_cleaner::models::clean::{CleanAction, CleanPriority, CleanTask};
use cdrive_cleaner::models::scan::{RiskLevel, ScanCategory};
use cdrive_cleaner::services::evaluation_engine::{
    cache_key, evaluate_task, high_risk_warning, risk_description, risk_level_to_score,
    score_by_category, score_by_frequency, score_by_path, score_by_signature, score_by_time,
    score_factors,
};

fn task(name: &str, risk: RiskLevel) -> CleanTask {
    CleanTask {
        id: "t".to_string(),
        target_id: "g".to_string(),
        target_path: "C:\\x".to_string(),
        target_name: name.to_string(),
        action: CleanAction::Delete,
        priority: CleanPriority::Normal,
        risk_level: risk,
        size: 1,
        file_count: 1,
        backup_required: false,
    }
}

#[test]
fn path_scores() {
    assert_eq!(score_by_path("C:\\ProgramData\\x"), 10);
    assert_eq!(score_by_path("D:\\Users\\u\\AppData\\Local\\Temp"), 95);
    assert_eq!(score_by_path("D:\\SoftwareDistribution\\Download\\y"), 95);
    assert_eq!(score_by_path("D:\\data"), 60);
    assert_eq!(score_by_category(ScanCategory::System), 15);
    assert_eq!(score_by_frequency("anything"), 70);
}

#[test]
fn age_scores() {
    let then = chrono::NaiveDateTime::parse_from_str("2024-01-01 00:00:00", "%Y-%m-%d %H:%M:%S")
        .unwrap()
        .and_utc()
        .timestamp();
    let day = 86_400i64;
    assert_eq!(score_by_time("2024-01-01 00:00:00", then + 91 * day), 90);
    assert_eq!(score_by_time("2024-01-01 00:00:00", then + 90 * day), 75);
    assert_eq!(score_by_time("2024-01-01 00:00:00", then + 31 * day), 75);
    assert_eq!(score_by_time("2024-01-01 00:00:00", then + 8 * day), 60);
    assert_eq!(score_by_time("2024-01-01 00:00:00", then + 8 * day - 1), 50);
    assert_eq!(score_by_time("2024-01-01 00:00:00", then - 100 * day), 50);
    assert_eq!(score_by_time("not a time", then), 50);
}

#[test]
fn signature_scores() {
    assert_eq!(score_by_signature("C:\\Windows\\notepad.txt"), 10);
    assert_eq!(score_by_signature("D:\\tools\\a.DLL"), 10);
    assert_eq!(score_by_signature("D:\\tools\\a.txt"), 80);
    let f = score_factors("D:\\a.txt", ScanCategory::Temp, "bad", 0);
    assert_eq!((f.path, f.category, f.time, f.frequency, f.signature), (60, 95, 50, 70, 80));
}

#[test]
fn task_evaluation() {
    assert_eq!(risk_level_to_score(RiskLevel::Safe), 90);
    assert_eq!(risk_level_to_score(RiskLevel::Critical), 10);
    let low = evaluate_task(&task("缓存", RiskLevel::Medium));
    assert_eq!(low.score, 50);
    assert!(low.warnings.is_empty());
    let high = evaluate_task(&task("系统", RiskLevel::High));
    assert_eq!(high.score, 30);
    assert_eq!(high.warnings, vec!["「系统」风险较高".to_string()]);
    assert_eq!(risk_description(RiskLevel::Low), "低风险，建议清理");
    assert_eq!(high_risk_warning("x"), "「x」存在较高风险，建议谨慎操作");
}

#[test]
fn cache_keys_join_ids() {
    assert_eq!(cache_key(&[]), "");
    assert_eq!(cache_key(&["a".to_string()]), "a");
    assert_eq!(cache_key(&["a".to_string(), "b".to_string(), "c".to_string()]), "a|b|c");
}
