use cdrive_cleaner::error::AppError;
use cdrive_cleaner::models::scan::{FileMetadata, RiskLevel, ScanCategory, ScanPhase};
use cdrive_cleaner::services::scan_engine::{AiFinding, CategoryGroup, ScanEngine};

fn file(path: &str, size: u64, category: ScanCategory) -> FileMetadata {
    FileMetadata {
        path: path.to_string(),
        name: path.rsplit('\\').next().unwrap_or("").to_string(),
        size,
        modified_at: String::new(),
        created_at: String::new(),
        is_directory: false,
        extension: String::new(),
        category,
        hash: String::new(),
    }
}

fn finding(path: &str, category: ScanCategory, risk: RiskLevel, safe: bool, reason: &str) -> AiFinding {
    AiFinding {
        path: path.to_string(),
        category,
        risk_level: risk,
        safe_to_clean: safe,
        reason: reason.to_string(),
        recommendation: String::new(),
    }
}

#[test]
fn scan_start_twice_is_refused() {
    let mut engine = ScanEngine::new();
    assert!(!engine.is_scanning());
    assert!(engine.begin_scan().is_ok());
    assert!(engine.is_scanning());
    match engine.begin_scan() {
        Err(AppError::ScanError(m)) => assert_eq!(m, "扫描正在进行中"),
        other => panic!("unexpected {:?}", other),
    }
}

#[test]
fn stop_without_scan_is_refused() {
    let mut engine = ScanEngine::new();
    match engine.stop_scan() {
        Err(AppError::ScanError(m)) => assert_eq!(m, "没有正在进行的扫描"),
        other => panic!("unexpected {:?}", other),
    }
}

#[test]
fn stopped_scan_finishes_cancelled() {
    let mut engine = ScanEngine::new();
    engine.begin_scan().unwrap();
    engine.stop_scan().unwrap();
    assert!(engine.is_cancelled());
    assert!(!engine.is_scanning());
    assert_eq!(engine.finish_scan(), ScanPhase::Cancelled);
    engine.begin_scan().unwrap();
    assert!(!engine.is_cancelled());
    assert_eq!(engine.finish_scan(), ScanPhase::Completed);
}

#[test]
fn category_scores_and_risks() {
    assert_eq!(ScanEngine::calculate_category_safety(ScanCategory::Temp), 95);
    assert_eq!(ScanEngine::calculate_category_safety(ScanCategory::Browser), 88);
    assert_eq!(ScanEngine::calculate_category_safety(ScanCategory::System), 20);
    assert_eq!(ScanEngine::calculate_category_safety(ScanCategory::Other), 40);
    assert_eq!(ScanEngine::risk_from_tenths(800), RiskLevel::Safe);
    assert_eq!(ScanEngine::risk_from_tenths(799), RiskLevel::Low);
    assert_eq!(ScanEngine::risk_from_tenths(600), RiskLevel::Low);
    assert_eq!(ScanEngine::risk_from_tenths(400), RiskLevel::Medium);
    assert_eq!(ScanEngine::risk_from_tenths(200), RiskLevel::High);
    assert_eq!(ScanEngine::risk_from_tenths(199), RiskLevel::Critical);
}

#[test]
fn higher_score_never_graver_risk() {
    let mut last = ScanEngine::risk_weight(ScanEngine::risk_from_tenths(0));
    for t in 0..1000u32 {
        let w = ScanEngine::risk_weight(ScanEngine::risk_from_tenths(t));
        assert!(w <= last);
        last = w;
    }
}

#[test]
fn categorize_groups_sorts_and_describes() {
    let files = vec![
        file("C:\\Temp\\a.tmp", 1024, ScanCategory::Temp),
        file("C:\\Logs\\b.log", 3 * 1024 * 1024, ScanCategory::Log),
        file("C:\\Temp\\c.tmp", 2048, ScanCategory::Temp),
    ];
    let groups = ScanEngine::categorize_results(files, "2024-05-01 10:00:00");
    assert_eq!(groups.len(), 2);
    assert_eq!(groups[0].category, ScanCategory::Log);
    assert_eq!(groups[0].total_size, 3 * 1024 * 1024);
    assert_eq!(groups[0].name, "日志文件");
    assert_eq!(groups[0].description, "日志文件: 1 个文件, 3.00 MB");
    assert_eq!(groups[0].safety_tenths, 850);
    assert_eq!(groups[0].risk_level, RiskLevel::Safe);
    assert_eq!(groups[0].recommendation, "安全，建议清理");
    assert_eq!(groups[1].category, ScanCategory::Temp);
    assert_eq!(groups[1].file_count, 2);
    assert_eq!(groups[1].total_size, 3072);
    assert_eq!(groups[1].files[0].path, "C:\\Temp\\a.tmp");
    assert_eq!(groups[1].files[1].path, "C:\\Temp\\c.tmp");
    assert_eq!(groups[1].description, "临时文件: 2 个文件, 0.00 MB");
    assert_eq!(groups[1].scanned_at, "2024-05-01 10:00:00");
    let parent = std::path::Path::new("C:\\Temp\\a.tmp")
        .parent()
        .map(|p| p.to_str().unwrap_or("").to_string())
        .unwrap_or_default();
    assert_eq!(groups[1].path, parent);
}

#[test]
fn every_file_lands_in_its_group() {
    let files = vec![
        file("x1", 5, ScanCategory::Cache),
        file("x2", 7, ScanCategory::App),
        file("x3", 9, ScanCategory::Cache),
        file("x4", 1, ScanCategory::Other),
    ];
    let groups = ScanEngine::categorize_results(files.clone(), "t");
    let total: u64 = groups.iter().map(|g| g.file_count).sum();
    assert_eq!(total, 4);
    for f in &files {
        assert!(groups.iter().any(|g| g.category == f.category && g.files.iter().any(|h| h.path == f.path)));
    }
    for w in groups.windows(2) {
        assert!(w[0].total_size >= w[1].total_size);
    }
}

#[test]
fn no_system_group_is_safe() {
    let groups = ScanEngine::categorize_results(vec![file("s", 1, ScanCategory::System)], "t");
    assert_eq!(groups[0].safety_tenths, 200);
    assert_eq!(groups[0].risk_level, RiskLevel::High);
    assert_eq!(groups[0].recommendation, "高风险，不建议清理");
}

#[test]
fn deep_scan_rescoring() {
    let mut engine = ScanEngine::new();
    let groups = ScanEngine::categorize_results(
        vec![file("C:\\Windows\\Temp\\a", 10, ScanCategory::Cache), file("D:\\x", 2 * 1024 * 1024 * 1024, ScanCategory::Other)],
        "t",
    );
    engine.set_results(groups);
    engine.evaluate_safety_scores();
    let r = engine.get_results();
    // 3*80 + 4*40 + 3*70 for the large group
    assert_eq!(r[0].safety_tenths, 240 + 160 + 210);
    assert_eq!(r[0].risk_level, RiskLevel::Low);
    assert_eq!(ScanEngine::score_by_path("C:\\Windows\\Temp"), 10);
    assert_eq!(ScanEngine::score_by_path("D:\\Temp"), 80);
    assert_eq!(ScanEngine::score_by_size(1024 * 1024 * 1024 + 1), 70);
    assert_eq!(ScanEngine::score_by_size(1024 * 1024 * 100 + 1), 80);
    assert_eq!(ScanEngine::score_by_size(1024 * 1024 * 100), 90);
}

#[test]
fn path_key_unifies_separators_and_case() {
    assert_eq!(ScanEngine::path_key("C:/Users/A/File.TXT"), "c:\\users\\a\\file.txt");
}

#[test]
fn samples_are_capped_and_unique() {
    let mut many = Vec::new();
    for i in 0..30u64 {
        many.push(file(&format!("C:\\g\\f{}", i), 1000 - i, ScanCategory::Temp));
    }
    let groups: Vec<CategoryGroup> = (0..8)
        .map(|k| {
            let mut g = ScanEngine::categorize_results(many.clone(), "t").remove(0);
            g.files = g.files.iter().map(|f| file(&format!("{}-{}", f.path, k), f.size, f.category)).collect();
            g
        })
        .collect();
    let samples = ScanEngine::select_ai_samples(&groups);
    assert_eq!(samples.len(), 160);
    let mut keys: Vec<String> = samples.iter().map(|f| ScanEngine::path_key(&f.path)).collect();
    keys.sort();
    keys.dedup();
    assert_eq!(keys.len(), 160);
    // the first group gives its 25 largest files, largest first
    assert_eq!(samples[0].size, 1000);
    assert_eq!(samples[24].size, 976);
}

#[test]
fn samples_skip_repeated_paths() {
    let g = ScanEngine::categorize_results(
        vec![file("C:/A/x", 5, ScanCategory::Temp), file("c:\\a\\X", 9, ScanCategory::Temp)],
        "t",
    );
    let samples = ScanEngine::select_ai_samples(&g);
    assert_eq!(samples.len(), 1);
    assert_eq!(samples[0].size, 9);
}

#[test]
fn majority_and_worst() {
    let fs = vec![
        finding("a", ScanCategory::Cache, RiskLevel::Low, true, "r1"),
        finding("b", ScanCategory::Temp, RiskLevel::High, false, "r2"),
        finding("c", ScanCategory::Cache, RiskLevel::Safe, true, "r1"),
    ];
    assert_eq!(ScanEngine::majority_category(&fs), Some(ScanCategory::Cache));
    assert_eq!(ScanEngine::worst_risk(&fs), Some(RiskLevel::High));
    assert_eq!(ScanEngine::unsafe_count(&fs), 1);
    assert_eq!(ScanEngine::majority_category(&[]), None);
    assert_eq!(ScanEngine::worst_risk(&[]), None);
}

#[test]
fn ai_recommendation_texts() {
    let fs = vec![
        finding("a", ScanCategory::Cache, RiskLevel::Low, true, "  缓存  "),
        finding("b", ScanCategory::Cache, RiskLevel::Low, true, "缓存"),
        finding("c", ScanCategory::Cache, RiskLevel::Low, true, ""),
        finding("d", ScanCategory::Cache, RiskLevel::Low, true, "日志"),
        finding("e", ScanCategory::Cache, RiskLevel::Low, true, "其他"),
    ];
    assert_eq!(
        ScanEngine::build_ai_recommendation(&fs, 0, RiskLevel::Low),
        "AI识别：低风险，抽样 5 个文件均可清理。缓存；日志"
    );
    assert_eq!(
        ScanEngine::build_ai_recommendation(&fs[..1], 1, RiskLevel::High),
        "AI识别：高风险，抽样 1 个文件中 1 个不建议清理。缓存"
    );
    assert_eq!(
        ScanEngine::build_ai_recommendation(&fs[2..3], 0, RiskLevel::Safe),
        "AI识别：安全，抽样 1 个文件均可清理。未提供详细原因"
    );
}

#[test]
fn review_recategorizes_matched_files() {
    let groups = ScanEngine::categorize_results(
        vec![file("C:\\A\\one", 1024 * 1024, ScanCategory::Other), file("C:\\A\\two", 1024 * 1024, ScanCategory::Other)],
        "t",
    );
    let fs = vec![
        finding("c:/a/ONE", ScanCategory::Log, RiskLevel::Medium, false, "旧日志"),
        finding("C:\\A\\one", ScanCategory::Cache, RiskLevel::Low, true, "缓存"),
    ];
    let review = ScanEngine::review_group(&groups[0], &fs).unwrap();
    assert_eq!(review.matched, vec![1]);
    assert_eq!(review.files[0].category, ScanCategory::Cache);
    assert_eq!(review.files[1].category, ScanCategory::Other);
    assert_eq!(review.category, ScanCategory::Cache);
    assert_eq!(review.name, "缓存文件");
    assert_eq!(review.risk_level, RiskLevel::Low);
    assert_eq!(review.score_cap, 79);
    assert_eq!(review.description, "缓存文件: 2 个文件, 2.00 MB，AI抽样识别 1 个");
    assert_eq!(review.recommendation, "AI识别：低风险，抽样 1 个文件均可清理。缓存");
    let none = ScanEngine::review_group(&groups[0], &[finding("x", ScanCategory::Log, RiskLevel::Low, true, "")]);
    assert!(none.is_none());
}

#[test]
fn quick_scan_paths_follow_profile() {
    let p = ScanEngine::get_quick_scan_paths("C:\\Users\\u", "C:\\Windows");
    assert_eq!(p.len(), 10);
    assert_eq!(p[0], "C:\\Users\\u\\AppData\\Local\\Temp");
    assert_eq!(p[2], "C:\\Windows\\SoftwareDistribution\\Download");
    assert_eq!(p[4], "C:\\$Recycle.Bin");
    assert_eq!(p[9], "C:\\Users\\u\\AppData\\Local\\Mozilla\\Firefox\\Profiles");
}
