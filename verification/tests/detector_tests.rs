use cdrive_cleaner::services::software_detector::SoftwareDetector;

#[test]
fn candidates_follow_the_profile() {
    let d = SoftwareDetector::new();
    let c = d.cache_candidates("C:\\Users\\u");
    assert_eq!(c.len(), 8);
    assert_eq!(c[0].software_name, "微信");
    assert_eq!(c[0].cache_path, "C:\\Users\\u\\Documents\\WeChat Files");
    assert_eq!(c[4].software_name, "企业微信");
    assert_eq!(c[6].description, "Chrome代码缓存");
    assert_eq!(c[7].category, "浏览器");
    assert_eq!(d.firefox_profiles_dir("C:\\Users\\u"), "C:\\Users\\u\\AppData\\Local\\Mozilla\\Firefox\\Profiles");
}

#[test]
fn only_present_caches_are_reported() {
    let d = SoftwareDetector::new();
    let found = d.detect_all("P", &[false, true, false, false, true], &["P\\ff\\x.default\\cache2".to_string()]);
    assert_eq!(found.len(), 3);
    assert_eq!(found[0].cache_path, "P\\AppData\\Roaming\\Tencent\\WeChat");
    assert_eq!(found[1].cache_path, "P\\Documents\\WXWork");
    assert_eq!(found[2].software_name, "Firefox");
    assert_eq!(found[2].cache_path, "P\\ff\\x.default\\cache2");
    assert!(d.detect_all("P", &[], &[]).is_empty());
}

#[test]
fn registry_values() {
    let d = SoftwareDetector::new();
    let units: Vec<u16> = "Vendor\0".encode_utf16().collect();
    let mut buf = units.clone();
    buf.resize(16, 0);
    assert_eq!(d.registry_string(&buf, (units.len() * 2) as u32), "Vendor");
    assert_eq!(d.registry_string(&buf, 4), "Ve");
    assert_eq!(d.subkey_path("SOFTWARE\\X", "App"), "SOFTWARE\\X\\App");
    assert_eq!(d.uninstall_keys().len(), 2);
    let e = d.installed_entry(Some("App".to_string()), None, Some(2), Some("Pub".to_string()), None).unwrap();
    assert_eq!(e.name, "App");
    assert_eq!(e.install_path, "");
    assert_eq!(e.estimated_size, 2048);
    assert_eq!(e.publisher, "Pub");
    assert!(d.installed_entry(None, None, None, None, None).is_none());
}
