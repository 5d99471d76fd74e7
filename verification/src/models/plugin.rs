//! Plugins: what they are, what they find and what they clean.
use vstd::prelude::*;

verus! {

/// `serde_json::Value`, carried through unread as a plugin's settings.
#[verifier::external_type_specification]
#[verifier::external_body]
pub struct ExJsonValue(serde_json::Value);

/// Copies a JSON value (`<serde_json::Value as Clone>::clone`), a deep copy
/// that is equal to the value copied.
#[verifier::external_body]
fn clone_json(v: &serde_json::Value) -> (r: serde_json::Value)
    ensures
        r == *v,
{
    v.clone()
}

/// Whether a plugin is running.
#[derive(Debug, Clone, Copy, PartialEq, Eq, Structural)]
pub enum PluginStatus {
    Active,
    Inactive,
    Error,
    Loading,
}

/// What a plugin deals with.
#[derive(Debug, Clone, Copy, PartialEq, Eq, Structural)]
pub enum PluginCategory {
    Browser,
    System,
    App,
    Development,
    Gaming,
    Other,
}

/// A plugin as the user sees it.
#[derive(Debug)]
pub struct PluginInfo {
    pub id: String,
    pub name: String,
    pub version: String,
    pub description: String,
    pub author: String,
    pub status: PluginStatus,
    pub category: PluginCategory,
    pub enabled: bool,
    pub config: serde_json::Value,
    pub scan_count: u64,
    pub clean_count: u64,
    pub installed_at: String,
    pub updated_at: String,
}

impl Clone for PluginInfo {
    fn clone(&self) -> (r: Self)
        ensures
            r == *self,
    {
        PluginInfo {
            id: self.id.clone(),
            name: self.name.clone(),
            version: self.version.clone(),
            description: self.description.clone(),
            author: self.author.clone(),
            status: self.status,
            category: self.category,
            enabled: self.enabled,
            config: clone_json(&self.config),
            scan_count: self.scan_count,
            clean_count: self.clean_count,
            installed_at: self.installed_at.clone(),
            updated_at: self.updated_at.clone(),
        }
    }
}

/// What a plugin package declares about itself.
#[derive(Debug, Clone)]
pub struct PluginManifest {
    pub id: String,
    pub name: String,
    pub version: String,
    pub description: String,
    pub author: String,
    pub category: PluginCategory,
    pub entry_point: String,
    pub permissions: Vec<String>,
    pub min_app_version: String,
}

/// One thing a plugin found to clean.
#[derive(Debug)]
pub struct PluginScanTarget {
    pub path: String,
    pub name: String,
    pub size: u64,
    pub safe: bool,
    pub reason: String,
}

impl Clone for PluginScanTarget {
    fn clone(&self) -> (r: Self)
        ensures
            r == *self,
    {
        PluginScanTarget {
            path: self.path.clone(),
            name: self.name.clone(),
            size: self.size,
            safe: self.safe,
            reason: self.reason.clone(),
        }
    }
}

/// Everything a plugin found.
#[derive(Debug, Clone)]
pub struct PluginScanResult {
    pub plugin_id: String,
    pub targets: Vec<PluginScanTarget>,
    pub total_size: u64,
    pub file_count: u64,
}

/// What a plugin's clean-up achieved.
#[derive(Debug, Clone)]
pub struct PluginCleanResult {
    pub plugin_id: String,
    pub success: bool,
    pub freed_space: u64,
    pub cleaned_files: u64,
    pub errors: Vec<String>,
}

} // verus!
