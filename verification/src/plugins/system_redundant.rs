//! The system redundancy plugin: its entry, the leftovers of upgrades and
//! updates it looks at, and the results of scanning and removing them.
use vstd::prelude::*;

use crate::models::plugin::{
    PluginCategory, PluginCleanResult, PluginInfo, PluginScanResult, PluginScanTarget,
    PluginStatus,
};
use crate::plugins::common::{
    failure_texts, found_files, found_size, found_targets, measured_scan, no_settings,
    plugin_entry_spec, plugin_info, switch_info, tally_clean, total_cleaned_by, total_freed_by,
    RemovalOutcome,
};
use crate::services::plugin_manager::switched;
use crate::text::{concat, owned};

verus! {

/// The leftovers looked at, given the Windows folder: the previous Windows
/// installation, safe to remove, and the component store's temporary
/// folder, which needs administrator rights. Each as path, name, safety
/// and reason.
pub open spec fn redundant_views(windows_dir: Seq<char>) -> Seq<(Seq<char>, Seq<char>, bool, Seq<char>)> {
    seq![
        ("C:\\Windows.old"@, "Windows.old"@, true, "安全可清理"@),
        (windows_dir + "\\WinSxS\\Temp"@, "WinSxS临时文件"@, false, "需要管理员权限"@),
    ]
}

/// Whether `t` is the target for a leftover, its size not yet measured.
pub open spec fn is_redundant_target(t: PluginScanTarget, v: (Seq<char>, Seq<char>, bool, Seq<char>)) -> bool {
    &&& t.path@ == v.0
    &&& t.name@ == v.1
    &&& t.size == 0
    &&& t.safe == v.2
    &&& t.reason@ == v.3
}

/// Removes what Windows upgrades and updates leave behind.
#[derive(Debug)]
pub struct SystemRedundantPlugin {
    info: PluginInfo,
}

impl SystemRedundantPlugin {
    /// The plugin's entry.
    pub closed spec fn entry(&self) -> PluginInfo {
        self.info
    }

    /// The plugin, installed at `now`.
    pub fn new(now: &str) -> (r: Self)
        ensures
            plugin_entry_spec(r.entry(), "system-redundant"@, "系统冗余清理"@, "清理Windows.old、WinSxS冗余、旧还原点等"@, PluginStatus::Active, PluginCategory::System, true, now@),
    {
        SystemRedundantPlugin {
            info: plugin_info("system-redundant", "系统冗余清理", "清理Windows.old、WinSxS冗余、旧还原点等", PluginStatus::Active, PluginCategory::System, true, no_settings(), now),
        }
    }

    /// The plugin's entry.
    pub fn info(&self) -> (r: &PluginInfo)
        ensures
            *r == self.entry(),
    {
        &self.info
    }

    /// Whether the plugin is on.
    pub fn enabled(&self) -> (r: bool)
        ensures
            r == self.entry().enabled,
    {
        self.info.enabled
    }


    /// Turns the plugin on or off.
    pub fn set_enabled(&mut self, enabled: bool)
        ensures
            final(self).entry() == switched(old(self).entry(), enabled),
    {
        switch_info(&mut self.info, enabled);
    }

    /// The leftovers to look at, as targets whose size is still to be
    /// measured.
    pub fn candidates(&self, windows_dir: &str) -> (r: Vec<PluginScanTarget>)
        ensures
            r@.len() == 2,
            forall|i: int|
                0 <= i < 2 ==> is_redundant_target(#[trigger] r@[i], redundant_views(windows_dir@)[i]),
    {
        let mut r: Vec<PluginScanTarget> = Vec::new();
        r.push(
            PluginScanTarget {
                path: owned("C:\\Windows.old"),
                name: owned("Windows.old"),
                size: 0,
                safe: true,
                reason: owned("安全可清理"),
            },
        );
        r.push(
            PluginScanTarget {
                path: concat(windows_dir, "\\WinSxS\\Temp"),
                name: owned("WinSxS临时文件"),
                size: 0,
                safe: false,
                reason: owned("需要管理员权限"),
            },
        );
        r
    }
    /// The scan result, given each candidate's measured size and file count
    /// (`None` for one that is not there).
    pub fn scan(&self, candidates: &[PluginScanTarget], measured: &[Option<(u64, u64)>]) -> (r:
        PluginScanResult)
        requires
            found_size(candidates@.len(), measured@) <= u64::MAX,
            found_files(candidates@.len(), measured@) <= u64::MAX,
        ensures
            r.plugin_id@ == self.entry().id@,
            r.targets@ == found_targets(candidates@, measured@),
            r.total_size == found_size(candidates@.len(), measured@),
            r.file_count == found_files(candidates@.len(), measured@),
    {
        measured_scan(self.info.id.as_str(), candidates, measured)
    }

    /// The result of removing the safe targets, given what became of each.
    pub fn clean(&self, targets: &[PluginScanTarget], outcomes: &[RemovalOutcome]) -> (r:
        PluginCleanResult)
        requires
            outcomes@.len() == targets@.len(),
            total_freed_by(targets@, outcomes@) <= u64::MAX,
            total_cleaned_by(targets@, outcomes@) <= u64::MAX,
        ensures
            r.plugin_id@ == self.entry().id@,
            r.freed_space == total_freed_by(targets@, outcomes@),
            r.cleaned_files == total_cleaned_by(targets@, outcomes@),
            r.errors@.map_values(|e: String| e@) == failure_texts(targets@, outcomes@),
            r.success == (failure_texts(targets@, outcomes@).len() == 0),
    {
        tally_clean(self.info.id.as_str(), targets, outcomes)
    }
}

} // verus!
