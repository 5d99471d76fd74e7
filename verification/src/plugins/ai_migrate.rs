//! The AI migration plugin: its entry; it neither finds nor removes
//! anything by itself.
use vstd::prelude::*;

use crate::models::plugin::{
    PluginCategory, PluginCleanResult, PluginInfo, PluginScanResult, PluginScanTarget,
    PluginStatus,
};
use crate::plugins::common::{
    empty_scan, no_settings, noop_clean, plugin_entry_spec, plugin_info, switch_info,
};
use crate::services::plugin_manager::switched;

verus! {

/// Suggests files that can move to another drive.
#[derive(Debug)]
pub struct AiMigratePlugin {
    info: PluginInfo,
}

impl AiMigratePlugin {
    /// The plugin's entry.
    pub closed spec fn entry(&self) -> PluginInfo {
        self.info
    }

    /// The plugin, installed at `now`.
    pub fn new(now: &str) -> (r: Self)
        ensures
            plugin_entry_spec(r.entry(), "ai-migrate"@, "AI智能迁移"@, "AI自动识别可迁移文件，无损迁移到其他盘"@, PluginStatus::Active, PluginCategory::System, true, now@),
    {
        AiMigratePlugin {
            info: plugin_info("ai-migrate", "AI智能迁移", "AI自动识别可迁移文件，无损迁移到其他盘", PluginStatus::Active, PluginCategory::System, true, no_settings(), now),
        }
    }

    /// The plugin's entry.
    pub fn info(&self) -> (r: &PluginInfo)
        ensures
            *r == self.entry(),
    {
        &self.info
    }

    /// Whether the plugin is on.
    pub fn enabled(&self) -> (r: bool)
        ensures
            r == self.entry().enabled,
    {
        self.info.enabled
    }

    /// Turns the plugin on or off.
    pub fn set_enabled(&mut self, enabled: bool)
        ensures
            final(self).entry() == switched(old(self).entry(), enabled),
    {
        switch_info(&mut self.info, enabled);
    }

    /// A scan finds nothing by itself: suggestions come from the AI review.
    pub fn scan(&self) -> (r: PluginScanResult)
        ensures
            r.plugin_id@ == self.entry().id@,
            r.targets@.len() == 0,
            r.total_size == 0,
            r.file_count == 0,
    {
        empty_scan(self.info.id.as_str())
    }

    /// The space a clean-up would free by itself: none.
    pub fn estimate(&self) -> (r: u64)
        ensures
            r == 0,
    {
        0
    }

    /// A clean-up removes nothing: moving is done elsewhere.
    pub fn clean(&self, targets: &[PluginScanTarget]) -> (r: PluginCleanResult)
        ensures
            r.plugin_id@ == self.entry().id@,
            r.success,
            r.freed_space == 0,
            r.cleaned_files == 0,
            r.errors@.len() == 0,
    {
        noop_clean(self.info.id.as_str())
    }
}

} // verus!
