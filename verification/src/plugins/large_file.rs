//! The large-file plugin: its entry and size threshold, which files count
//! as large, where it does not look, and the results of scanning and
//! removing.
use vstd::prelude::*;

use crate::models::plugin::{
    PluginCategory, PluginCleanResult, PluginInfo, PluginScanResult, PluginScanTarget,
    PluginStatus,
};
use crate::plugins::common::{
    failure_texts, no_settings, path_starts_with, starts_with_path,
    plugin_entry_spec, plugin_info, switch_info, tally_clean, total_cleaned_by, total_freed_by,
    RemovalOutcome,
};
use crate::services::plugin_manager::switched;
use crate::services::file_walker::{file_name_of, path_file_name};
use crate::text::{concat, owned};
use crate::utils::file_utils::{as_float, fixed1, fixed1_of, nearest_float, tenths};

verus! {

/// The folders a large-file search skips.
pub open spec fn excluded_roots() -> Seq<Seq<char>> {
    seq!["C:\\Windows"@, "C:\\Program Files"@, "C:\\Program Files (x86)"@, "C:\\ProgramData"@]
}

/// The reason a large file is listed: its size in MB with one decimal.
pub open spec fn large_reason(size: nat) -> Seq<char> {
    "大文件("@ + fixed1(tenths(nearest_float(size), 0x10_0000)) + "MB)"@
}

/// The sum of the targets' sizes.
pub open spec fn targets_size(ts: Seq<PluginScanTarget>) -> nat
    decreases ts.len(),
{
    if ts.len() == 0 {
        0
    } else {
        targets_size(ts.drop_last()) + ts.last().size as nat
    }
}

/// Finds files above a size.
#[derive(Debug)]
pub struct LargeFilePlugin {
    info: PluginInfo,
    size_threshold: u64,
}

impl LargeFilePlugin {
    /// The plugin's entry.
    pub closed spec fn entry(&self) -> PluginInfo {
        self.info
    }

    /// The plugin, installed at `now`.
    pub fn new(now: &str) -> (r: Self)
        ensures
            plugin_entry_spec(r.entry(), "large-file"@, "大文件分析"@, "定位100MB以上大文件，支持智能筛选"@, PluginStatus::Active, PluginCategory::System, true, now@),
            r.threshold() == 100 * 0x10_0000,
    {
        LargeFilePlugin {
            info: plugin_info("large-file", "大文件分析", "定位100MB以上大文件，支持智能筛选", PluginStatus::Active, PluginCategory::System, true, no_settings(), now),
            size_threshold: 100 * 1024 * 1024,
        }
    }

    /// The plugin's entry.
    pub fn info(&self) -> (r: &PluginInfo)
        ensures
            *r == self.entry(),
    {
        &self.info
    }

    /// Whether the plugin is on.
    pub fn enabled(&self) -> (r: bool)
        ensures
            r == self.entry().enabled,
    {
        self.info.enabled
    }


    /// The size from which a file counts as large.
    pub closed spec fn threshold(&self) -> u64 {
        self.size_threshold
    }

    /// The plugin with its threshold set in MB.
    pub fn with_threshold(now: &str, threshold_mb: u64) -> (r: Self)
        requires
            threshold_mb * 0x10_0000 <= u64::MAX,
        ensures
            plugin_entry_spec(r.entry(), "large-file"@, "大文件分析"@, "定位100MB以上大文件，支持智能筛选"@, PluginStatus::Active, PluginCategory::System, true, now@),
            r.threshold() == threshold_mb * 0x10_0000,
    {
        let mut plugin = Self::new(now);
        plugin.size_threshold = threshold_mb * 1024 * 1024;
        plugin
    }

    /// The size from which a file counts as large.
    pub fn size_threshold(&self) -> (r: u64)
        ensures
            r == self.threshold(),
    {
        self.size_threshold
    }

    /// Turns the plugin on or off.
    pub fn set_enabled(&mut self, enabled: bool)
        ensures
            final(self).entry() == switched(old(self).entry(), enabled),
            final(self).threshold() == old(self).threshold(),
    {
        switch_info(&mut self.info, enabled);
    }

    /// Whether a folder is skipped: it lies under the system or program
    /// folders.
    pub fn is_excluded_dir(dir: &str) -> (r: bool)
        ensures
            r == exists|i: int| 0 <= i < 4 && path_starts_with(dir@, #[trigger] excluded_roots()[i]),
    {
        let a = starts_with_path(dir, "C:\\Windows");
        let b = starts_with_path(dir, "C:\\Program Files");
        let c = starts_with_path(dir, "C:\\Program Files (x86)");
        let d = starts_with_path(dir, "C:\\ProgramData");
        proof {
            let e = excluded_roots();
            assert(e[0] == "C:\\Windows"@);
            assert(e[1] == "C:\\Program Files"@);
            assert(e[2] == "C:\\Program Files (x86)"@);
            assert(e[3] == "C:\\ProgramData"@);
        }
        a || b || c || d
    }

    /// The target for a file of this size, when it counts as large: its
    /// path and name, not safe to remove unasked, the size as reason.
    pub fn large_file_target(&self, path: &str, size: u64) -> (r: Option<PluginScanTarget>)
        ensures
            size < self.threshold() <==> r is None,
            r matches Some(t) ==> {
                &&& t.path@ == path@
                &&& t.name@ == (match path_file_name(path@) {
                    Some(n) => n,
                    None => Seq::<char>::empty(),
                })
                &&& t.size == size
                &&& !t.safe
                &&& t.reason@ == large_reason(size as nat)
            },
    {
        if size < self.size_threshold {
            return None;
        }
        let name = match file_name_of(path) {
            Some(n) => n,
            None => String::new(),
        };
        let mb = fixed1_of(as_float(size), 0x10_0000, "MB)");
        let reason = concat("大文件(", mb.as_str());
        Some(PluginScanTarget { path: owned(path), name, size, safe: false, reason })
    }

    /// The scan result of the large files found: their total size and
    /// count.
    pub fn scan_result(&self, targets: Vec<PluginScanTarget>) -> (r: PluginScanResult)
        requires
            targets_size(targets@) <= u64::MAX,
        ensures
            r.plugin_id@ == self.entry().id@,
            r.targets@ == targets@,
            r.total_size == targets_size(targets@),
            r.file_count == targets@.len(),
    {
        let mut total: u64 = 0;
        let mut i: usize = 0;
        while i < targets.len()
            invariant
                i <= targets@.len(),
                targets_size(targets@) <= u64::MAX,
                total == targets_size(targets@.take(i as int)),
            decreases targets@.len() - i,
        {
            proof {
                assert(targets@.take(i + 1).drop_last() == targets@.take(i as int));
                lemma_targets_size_prefix(targets@, i + 1);
            }
            total = total + targets[i].size;
            i = i + 1;
        }
        assert(targets@.take(targets@.len() as int) == targets@);
        let count = targets.len() as u64;
        PluginScanResult { plugin_id: self.info.id.clone(), targets, total_size: total, file_count: count }
    }
    /// The result of removing the safe targets, given what became of each.
    pub fn clean(&self, targets: &[PluginScanTarget], outcomes: &[RemovalOutcome]) -> (r:
        PluginCleanResult)
        requires
            outcomes@.len() == targets@.len(),
            total_freed_by(targets@, outcomes@) <= u64::MAX,
            total_cleaned_by(targets@, outcomes@) <= u64::MAX,
        ensures
            r.plugin_id@ == self.entry().id@,
            r.freed_space == total_freed_by(targets@, outcomes@),
            r.cleaned_files == total_cleaned_by(targets@, outcomes@),
            r.errors@.map_values(|e: String| e@) == failure_texts(targets@, outcomes@),
            r.success == (failure_texts(targets@, outcomes@).len() == 0),
    {
        tally_clean(self.info.id.as_str(), targets, outcomes)
    }
}

proof fn lemma_targets_size_prefix(ts: Seq<PluginScanTarget>, i: int)
    requires
        0 <= i <= ts.len(),
    ensures
        targets_size(ts.take(i)) <= targets_size(ts),
    decreases ts.len(),
{
    if i < ts.len() {
        assert(ts.drop_last().take(i) == ts.take(i));
        lemma_targets_size_prefix(ts.drop_last(), i);
    } else {
        assert(ts.take(i) == ts);
    }
}

} // verus!
