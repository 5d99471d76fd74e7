//! The duplicate-file plugin: its entry, and clean-ups that delete the
//! chosen duplicate files.
use vstd::prelude::*;

use crate::models::plugin::{
    PluginCategory, PluginCleanResult, PluginInfo, PluginScanResult, PluginScanTarget,
    PluginStatus,
};
use crate::plugins::common::{
    empty_scan, failure_texts, no_settings, plugin_entry_spec, plugin_info, switch_info,
    tally_clean, total_cleaned_by, total_freed_by, RemovalOutcome,
};
use crate::services::plugin_manager::switched;

verus! {

/// Finds and deletes duplicate files.
#[derive(Debug)]
pub struct DuplicateFilePlugin {
    info: PluginInfo,
}

impl DuplicateFilePlugin {
    /// The plugin's entry.
    pub closed spec fn entry(&self) -> PluginInfo {
        self.info
    }

    /// The plugin, installed at `now`.
    pub fn new(now: &str) -> (r: Self)
        ensures
            plugin_entry_spec(r.entry(), "duplicate-file"@, "重复文件清理"@, "识别重复文件、相似图片，智能推荐删除"@, PluginStatus::Active, PluginCategory::System, true, now@),
    {
        DuplicateFilePlugin {
            info: plugin_info("duplicate-file", "重复文件清理", "识别重复文件、相似图片，智能推荐删除", PluginStatus::Active, PluginCategory::System, true, no_settings(), now),
        }
    }

    /// The plugin's entry.
    pub fn info(&self) -> (r: &PluginInfo)
        ensures
            *r == self.entry(),
    {
        &self.info
    }

    /// Whether the plugin is on.
    pub fn enabled(&self) -> (r: bool)
        ensures
            r == self.entry().enabled,
    {
        self.info.enabled
    }

    /// Turns the plugin on or off.
    pub fn set_enabled(&mut self, enabled: bool)
        ensures
            final(self).entry() == switched(old(self).entry(), enabled),
    {
        switch_info(&mut self.info, enabled);
    }

    /// A scan finds nothing by itself: duplicates come from the fingerprints.
    pub fn scan(&self) -> (r: PluginScanResult)
        ensures
            r.plugin_id@ == self.entry().id@,
            r.targets@.len() == 0,
            r.total_size == 0,
            r.file_count == 0,
    {
        empty_scan(self.info.id.as_str())
    }

    /// The space a clean-up would free by itself: none.
    pub fn estimate(&self) -> (r: u64)
        ensures
            r == 0,
    {
        0
    }

    /// The result of removing the safe targets, given what became of each.
    pub fn clean(&self, targets: &[PluginScanTarget], outcomes: &[RemovalOutcome]) -> (r:
        PluginCleanResult)
        requires
            outcomes@.len() == targets@.len(),
            total_freed_by(targets@, outcomes@) <= u64::MAX,
            total_cleaned_by(targets@, outcomes@) <= u64::MAX,
        ensures
            r.plugin_id@ == self.entry().id@,
            r.freed_space == total_freed_by(targets@, outcomes@),
            r.cleaned_files == total_cleaned_by(targets@, outcomes@),
            r.errors@.map_values(|e: String| e@) == failure_texts(targets@, outcomes@),
            r.success == (failure_texts(targets@, outcomes@).len() == 0),
    {
        tally_clean(self.info.id.as_str(), targets, outcomes)
    }
}

} // verus!
