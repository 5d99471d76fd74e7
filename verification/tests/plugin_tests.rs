use cdrive_cleaner::models::plugin::{PluginScanTarget, PluginStatus};
use cdrive_cleaner::plugins::auto_clean::AutoCleanPlugin;
use cdrive_cleaner::plugins::browser::BrowserPlugin;
use cdrive_cleaner::plugins::common::{tally_clean, RemovalOutcome};
use cdrive_cleaner::plugins::duplicate_file::DuplicateFilePlugin;
use cdrive_cleaner::plugins::large_file::LargeFilePlugin;
use cdrive_cleaner::plugins::social_app::SocialAppPlugin;
use cdrive_cleaner::plugins::software_mover::SoftwareMoverPlugin;
use cdrive_cleaner::plugins::system_redundant::SystemRedundantPlugin;
use cdrive_cleaner::services::software_detector::InstalledSoftware;

fn target(path: &str, size: u64, safe: bool) -> PluginScanTarget {
    PluginScanTarget { path: path.to_string(), name: String::new(), size, safe, reason: String::new() }
}

#[test]
fn clean_results_are_tallied() {
    let ts = vec![target("a", 10, true), target("b", 20, false), target("c", 30, true), target("d", 5, true), target("e", 2, true)];
    let os = vec![
        RemovalOutcome::Removed,
        RemovalOutcome::Removed,
        RemovalOutcome::Failed(true, "denied".to_string()),
        RemovalOutcome::Failed(false, "busy".to_string()),
        RemovalOutcome::RemovedEntries(3),
    ];
    let r = tally_clean("p", &ts, &os);
    assert_eq!(r.freed_space, 10 + 6);
    assert_eq!(r.cleaned_files, 1 + 3);
    assert_eq!(r.errors, vec!["清理失败: c - denied".to_string(), "删除失败: d - busy".to_string()]);
    assert!(!r.success);
    let ok = tally_clean("p", &ts[..1], &os[..1]);
    assert!(ok.success);
}

#[test]
fn switching_plugins() {
    let mut p = DuplicateFilePlugin::new("t");
    assert!(p.enabled());
    p.set_enabled(false);
    assert!(!p.enabled());
    assert_eq!(p.info().status, PluginStatus::Inactive);
    p.set_enabled(true);
    assert_eq!(p.info().status, PluginStatus::Active);
    assert_eq!(p.scan().targets.len(), 0);
    assert_eq!(p.estimate(), 0);
}

#[test]
fn emergency_needs_low_system_disk() {
    let a = AutoCleanPlugin::new("t");
    assert!(!a.enabled());
    let gib = 1024u64 * 1024 * 1024;
    assert!(a.should_trigger_emergency(&[("D:\\".to_string(), 0), ("C:\\".to_string(), 9 * gib)]));
    assert!(!a.should_trigger_emergency(&[("C:".to_string(), 10 * gib)]));
    assert!(!a.should_trigger_emergency(&[("/".to_string(), 0)]));
    assert!(a.scan().targets.is_empty());
    assert!(a.clean(&[]).success);
}

#[test]
fn large_files_are_listed() {
    let p = LargeFilePlugin::new("t");
    assert_eq!(p.size_threshold(), 100 * 1024 * 1024);
    assert!(p.large_file_target("x", 100 * 1024 * 1024 - 1).is_none());
    let t = p.large_file_target("big.iso", 150 * 1024 * 1024).unwrap();
    assert_eq!(t.reason, "大文件(150.0MB)");
    assert_eq!(t.name, "big.iso");
    assert!(!t.safe);
    let s = p.scan_result(vec![t.clone(), t]);
    assert_eq!(s.total_size, 300 * 1024 * 1024);
    assert_eq!(s.file_count, 2);
    let small = LargeFilePlugin::with_threshold("t", 1);
    assert_eq!(small.size_threshold(), 1024 * 1024);
    assert!(LargeFilePlugin::is_excluded_dir("C:\\Windows"));
    assert!(!LargeFilePlugin::is_excluded_dir("D:\\data"));
}

#[test]
fn cache_plugins_scan_what_exists() {
    let b = BrowserPlugin::new("t");
    let cands = b.candidates("U", &["U\\ff\\cache2".to_string()]);
    assert_eq!(cands.len(), 4);
    assert_eq!(cands[0].name, "Chrome缓存");
    assert_eq!(cands[3].name, "Firefox缓存");
    let r = b.scan(&cands, &[Some((10, 2)), None, Some((5, 1)), None]);
    assert_eq!(r.targets.len(), 2);
    assert_eq!(r.targets[1].size, 5);
    assert_eq!(r.total_size, 15);
    assert_eq!(r.file_count, 3);
    let s = SocialAppPlugin::new("t");
    let sc = s.candidates("U");
    assert_eq!(sc.len(), 5);
    assert_eq!(sc[2].name, "QQ缓存");
    assert!(sc.iter().all(|t| t.safe));
}

#[test]
fn redundant_leftovers() {
    let p = SystemRedundantPlugin::new("t");
    let c = p.candidates("C:\\Windows");
    assert_eq!(c[0].path, "C:\\Windows.old");
    assert!(c[0].safe);
    assert_eq!(c[1].path, "C:\\Windows\\WinSxS\\Temp");
    assert_eq!(c[1].reason, "需要管理员权限");
}

#[test]
fn movable_software() {
    let p = SoftwareMoverPlugin::new("t");
    let sw = vec![
        InstalledSoftware { name: "A".into(), install_path: "".into(), estimated_size: 5, publisher: "P".into(), version: "1".into() },
        InstalledSoftware { name: "B".into(), install_path: "C:\\".into(), estimated_size: 3 * 1024 * 1024, publisher: "Q".into(), version: "2".into() },
        InstalledSoftware { name: "C".into(), install_path: "C:\\".into(), estimated_size: 0, publisher: "R".into(), version: "3".into() },
    ];
    let r = p.scan(&sw, &[true, true, true]);
    assert_eq!(r.targets.len(), 1);
    assert_eq!(r.targets[0].name, "B");
    assert_eq!(r.targets[0].reason, "Q - 3.0MB");
    assert_eq!(r.file_count, 1);
    assert_eq!(r.total_size, 3 * 1024 * 1024);
    let none = p.scan(&sw, &[true, false, true]);
    assert!(none.targets.is_empty());
}
