use cdrive_cleaner::error::AppError;
use cdrive_cleaner::models::plugin::{PluginCategory, PluginStatus};
use cdrive_cleaner::services::plugin_manager::PluginManager;

#[test]
fn defaults_are_registered() {
    let m = PluginManager::new("2024-01-01 00:00:00");
    let list = m.list_plugins();
    assert_eq!(list.len(), 9);
    let auto = list.iter().find(|p| p.id == "auto-clean").unwrap();
    assert!(!auto.enabled);
    assert_eq!(auto.status, PluginStatus::Inactive);
    let browser = list.iter().find(|p| p.id == "browser").unwrap();
    assert_eq!(browser.category, PluginCategory::Browser);
    assert_eq!(browser.installed_at, "2024-01-01 00:00:00");
    let defaults = PluginManager::default_plugins("now");
    assert_eq!(defaults[0].id, "system-junk");
    assert_eq!(defaults[8].id, "auto-clean");
    assert_eq!(defaults[6].name, "AI智能迁移");
}

#[test]
fn enabling_and_disabling() {
    let mut m = PluginManager::new("t");
    m.enable_plugin("auto-clean").unwrap();
    let p = m.list_plugins().into_iter().find(|p| p.id == "auto-clean").unwrap();
    assert!(p.enabled);
    assert_eq!(p.status, PluginStatus::Active);
    m.disable_plugin("auto-clean").unwrap();
    let p = m.list_plugins().into_iter().find(|p| p.id == "auto-clean").unwrap();
    assert!(!p.enabled);
    assert_eq!(p.status, PluginStatus::Inactive);
    match m.enable_plugin("nope") {
        Err(AppError::PluginError(msg)) => assert_eq!(msg, "插件不存在: nope"),
        other => panic!("unexpected {:?}", other),
    }
}

#[test]
fn register_then_unregister_restores() {
    let mut m = PluginManager::new("t");
    let mut extra = PluginManager::default_plugins("t").remove(0);
    extra.id = "custom".to_string();
    m.register_plugin(extra).unwrap();
    assert_eq!(m.list_plugins().len(), 10);
    m.unregister_plugin("custom").unwrap();
    assert_eq!(m.list_plugins().len(), 9);
    match m.unregister_plugin("custom") {
        Err(AppError::PluginError(msg)) => assert_eq!(msg, "插件不存在: custom"),
        other => panic!("unexpected {:?}", other),
    }
}

#[test]
fn register_replaces_same_id() {
    let mut m = PluginManager::new("t");
    let mut again = PluginManager::default_plugins("later").remove(1);
    again.name = "renamed".to_string();
    m.register_plugin(again).unwrap();
    let list = m.list_plugins();
    assert_eq!(list.len(), 9);
    assert_eq!(list.iter().find(|p| p.id == "system-redundant").unwrap().name, "renamed");
}
