//! The chat plugin: its entry, the chat caches it looks at, and the results
//! of scanning and emptying them.
use vstd::prelude::*;

use crate::models::plugin::{
    PluginCategory, PluginCleanResult, PluginInfo, PluginScanResult, PluginScanTarget,
    PluginStatus,
};
use crate::plugins::common::{
    failure_texts, found_files, found_size, found_targets, measured_scan, no_settings,
    plugin_entry_spec, plugin_info, switch_info, tally_clean, total_cleaned_by, total_freed_by,
    RemovalOutcome,
};
use crate::services::plugin_manager::switched;
use crate::services::software_detector::{
    cache_candidates_spec, cache_view, SoftwareCacheInfo, SoftwareDetector,
};
use crate::plugins::browser::{cache_target, is_cache_target};

verus! {

/// The chat cache entries looked at: WeChat's two, QQ's two and WeCom's.
pub open spec fn chat_views(user_profile: Seq<char>) -> Seq<
    (Seq<char>, Seq<char>, Seq<char>, Seq<char>),
> {
    cache_candidates_spec(user_profile).subrange(0, 5)
}

/// Empties the caches of chat programs.
#[derive(Debug)]
pub struct SocialAppPlugin {
    info: PluginInfo,
    detector: SoftwareDetector,
}

impl SocialAppPlugin {
    /// The plugin's entry.
    pub closed spec fn entry(&self) -> PluginInfo {
        self.info
    }

    /// The plugin, installed at `now`.
    pub fn new(now: &str) -> (r: Self)
        ensures
            plugin_entry_spec(r.entry(), "social-app"@, "社交软件清理"@, "清理微信、QQ、企业微信等聊天缓存"@, PluginStatus::Active, PluginCategory::App, true, now@),
    {
        SocialAppPlugin {
            info: plugin_info("social-app", "社交软件清理", "清理微信、QQ、企业微信等聊天缓存", PluginStatus::Active, PluginCategory::App, true, no_settings(), now),
            detector: SoftwareDetector::new(),
        }
    }

    /// The plugin's entry.
    pub fn info(&self) -> (r: &PluginInfo)
        ensures
            *r == self.entry(),
    {
        &self.info
    }

    /// Whether the plugin is on.
    pub fn enabled(&self) -> (r: bool)
        ensures
            r == self.entry().enabled,
    {
        self.info.enabled
    }

    /// Turns the plugin on or off.
    pub fn set_enabled(&mut self, enabled: bool)
        ensures
            final(self).entry() == switched(old(self).entry(), enabled),
    {
        switch_info(&mut self.info, enabled);
    }

    /// The chat caches to look at, as targets whose size is still to be
    /// measured.
    pub fn candidates(&self, user_profile: &str) -> (r: Vec<PluginScanTarget>)
        ensures
            r@.len() == chat_views(user_profile@).len(),
            forall|i: int|
                0 <= i < r@.len() ==> is_cache_target(#[trigger] r@[i], chat_views(user_profile@)[i]),
    {
        let all = self.detector.cache_candidates(user_profile);
        let ghost av = all@.map_values(|c: SoftwareCacheInfo| cache_view(c));
        let ghost views = chat_views(user_profile@);
        let mut r: Vec<PluginScanTarget> = Vec::new();
        assert(av.len() == 8);
        let mut i: usize = 0;
        while i < 5
            invariant
                i <= 5,
                all@.len() == 8,
                av == all@.map_values(|c: SoftwareCacheInfo| cache_view(c)),
                av == cache_candidates_spec(user_profile@),
                views == chat_views(user_profile@),
                r@.len() == i,
                forall|k: int| 0 <= k < r@.len() ==> is_cache_target(#[trigger] r@[k], views[k]),
            decreases 5 - i,
        {
            let t = cache_target(&all[i]);
            assert(views[i as int] == av[i as int]);
            r.push(t);
            i = i + 1;
        }
        r
    }
    /// The scan result, given each candidate's measured size and file count
    /// (`None` for one that is not there).
    pub fn scan(&self, candidates: &[PluginScanTarget], measured: &[Option<(u64, u64)>]) -> (r:
        PluginScanResult)
        requires
            found_size(candidates@.len(), measured@) <= u64::MAX,
            found_files(candidates@.len(), measured@) <= u64::MAX,
        ensures
            r.plugin_id@ == self.entry().id@,
            r.targets@ == found_targets(candidates@, measured@),
            r.total_size == found_size(candidates@.len(), measured@),
            r.file_count == found_files(candidates@.len(), measured@),
    {
        measured_scan(self.info.id.as_str(), candidates, measured)
    }

    /// The result of removing the safe targets, given what became of each.
    pub fn clean(&self, targets: &[PluginScanTarget], outcomes: &[RemovalOutcome]) -> (r:
        PluginCleanResult)
        requires
            outcomes@.len() == targets@.len(),
            total_freed_by(targets@, outcomes@) <= u64::MAX,
            total_cleaned_by(targets@, outcomes@) <= u64::MAX,
        ensures
            r.plugin_id@ == self.entry().id@,
            r.freed_space == total_freed_by(targets@, outcomes@),
            r.cleaned_files == total_cleaned_by(targets@, outcomes@),
            r.errors@.map_values(|e: String| e@) == failure_texts(targets@, outcomes@),
            r.success == (failure_texts(targets@, outcomes@).len() == 0),
    {
        tally_clean(self.info.id.as_str(), targets, outcomes)
    }
}

} // verus!
