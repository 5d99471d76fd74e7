//! The browser plugin: its entry, the browser caches it looks at, and the
//! results of scanning and emptying them.
use vstd::prelude::*;

use crate::models::plugin::{
    PluginCategory, PluginCleanResult, PluginInfo, PluginScanResult, PluginScanTarget,
    PluginStatus,
};
use crate::plugins::common::{
    failure_texts, found_files, found_size, found_targets, measured_scan, no_settings,
    plugin_entry_spec, plugin_info, switch_info, tally_clean, total_cleaned_by, total_freed_by,
    RemovalOutcome,
};
use crate::services::plugin_manager::switched;
use crate::services::software_detector::{
    cache_candidates_spec, cache_view, firefox_view, SoftwareCacheInfo, SoftwareDetector,
};
use crate::text::{concat, owned};

verus! {

/// Whether `t` is the target for a cache entry (program, folder, kind,
/// description): the folder, the program's name and `"缓存"`, size not yet
/// measured, safe, the description as reason.
pub open spec fn is_cache_target(t: PluginScanTarget, v: (Seq<char>, Seq<char>, Seq<char>, Seq<char>)) -> bool {
    &&& t.path@ == v.1
    &&& t.name@ == v.0 + "缓存"@
    &&& t.size == 0
    &&& t.safe
    &&& t.reason@ == v.3
}

/// The target for a cache entry.
pub fn cache_target(c: &SoftwareCacheInfo) -> (r: PluginScanTarget)
    ensures
        is_cache_target(r, cache_view(*c)),
{
    PluginScanTarget {
        path: c.cache_path.clone(),
        name: concat(c.software_name.as_str(), "缓存"),
        size: 0,
        safe: true,
        reason: c.description.clone(),
    }
}

/// The browser cache entries looked at: Chrome's two and Edge's, then one
/// per Firefox profile cache folder found.
pub open spec fn browser_views(user_profile: Seq<char>, firefox: Seq<String>) -> Seq<
    (Seq<char>, Seq<char>, Seq<char>, Seq<char>),
> {
    cache_candidates_spec(user_profile).subrange(5, 8) + firefox.map_values(
        |d: String| firefox_view(d@),
    )
}

/// Empties browser caches.
#[derive(Debug)]
pub struct BrowserPlugin {
    info: PluginInfo,
    detector: SoftwareDetector,
}

impl BrowserPlugin {
    /// The plugin's entry.
    pub closed spec fn entry(&self) -> PluginInfo {
        self.info
    }

    /// The plugin, installed at `now`.
    pub fn new(now: &str) -> (r: Self)
        ensures
            plugin_entry_spec(r.entry(), "browser"@, "浏览器清理"@, "清理Chrome、Edge、Firefox等浏览器缓存"@, PluginStatus::Active, PluginCategory::Browser, true, now@),
    {
        BrowserPlugin {
            info: plugin_info("browser", "浏览器清理", "清理Chrome、Edge、Firefox等浏览器缓存", PluginStatus::Active, PluginCategory::Browser, true, no_settings(), now),
            detector: SoftwareDetector::new(),
        }
    }

    /// The plugin's entry.
    pub fn info(&self) -> (r: &PluginInfo)
        ensures
            *r == self.entry(),
    {
        &self.info
    }

    /// Whether the plugin is on.
    pub fn enabled(&self) -> (r: bool)
        ensures
            r == self.entry().enabled,
    {
        self.info.enabled
    }

    /// Turns the plugin on or off.
    pub fn set_enabled(&mut self, enabled: bool)
        ensures
            final(self).entry() == switched(old(self).entry(), enabled),
    {
        switch_info(&mut self.info, enabled);
    }

    /// The browser caches to look at, as targets whose size is still to be
    /// measured: Chrome's two and Edge's under the user's profile, then one
    /// per Firefox profile cache folder found.
    pub fn candidates(&self, user_profile: &str, firefox_caches: &[String]) -> (r: Vec<
        PluginScanTarget,
    >)
        ensures
            r@.len() == browser_views(user_profile@, firefox_caches@).len(),
            forall|i: int|
                0 <= i < r@.len() ==> is_cache_target(
                    #[trigger] r@[i],
                    browser_views(user_profile@, firefox_caches@)[i],
                ),
    {
        let all = self.detector.cache_candidates(user_profile);
        let ghost av = all@.map_values(|c: SoftwareCacheInfo| cache_view(c));
        let ghost views = browser_views(user_profile@, firefox_caches@);
        let mut r: Vec<PluginScanTarget> = Vec::new();
        assert(av.len() == 8);
        let mut i: usize = 5;
        while i < 8
            invariant
                5 <= i <= 8,
                all@.len() == 8,
                av == all@.map_values(|c: SoftwareCacheInfo| cache_view(c)),
                av == cache_candidates_spec(user_profile@),
                views == browser_views(user_profile@, firefox_caches@),
                r@.len() == i - 5,
                forall|k: int| 0 <= k < r@.len() ==> is_cache_target(#[trigger] r@[k], views[k]),
            decreases 8 - i,
        {
            let t = cache_target(&all[i]);
            assert(views[i - 5] == av[i as int]);
            r.push(t);
            i = i + 1;
        }
        let mut k: usize = 0;
        while k < firefox_caches.len()
            invariant
                k <= firefox_caches@.len(),
                views == browser_views(user_profile@, firefox_caches@),
                r@.len() == 3 + k,
                forall|m: int| 0 <= m < r@.len() ==> is_cache_target(#[trigger] r@[m], views[m]),
            decreases firefox_caches@.len() - k,
        {
            let t = PluginScanTarget {
                path: firefox_caches[k].clone(),
                name: owned("Firefox缓存"),
                size: 0,
                safe: true,
                reason: owned("Firefox浏览器缓存"),
            };
            proof {
                reveal_strlit("Firefox");
                reveal_strlit("缓存");
                reveal_strlit("Firefox缓存");
                assert("Firefox缓存"@ =~= "Firefox"@ + "缓存"@);
                assert(views[3 + k] == firefox_view(firefox_caches@[k as int]@));
                assert(is_cache_target(t, views[3 + k]));
            }
            r.push(t);
            k = k + 1;
        }
        r
    }

    /// The scan result, given each candidate's measured size and file count
    /// (`None` for one that is not there).
    pub fn scan(&self, candidates: &[PluginScanTarget], measured: &[Option<(u64, u64)>]) -> (r:
        PluginScanResult)
        requires
            found_size(candidates@.len(), measured@) <= u64::MAX,
            found_files(candidates@.len(), measured@) <= u64::MAX,
        ensures
            r.plugin_id@ == self.entry().id@,
            r.targets@ == found_targets(candidates@, measured@),
            r.total_size == found_size(candidates@.len(), measured@),
            r.file_count == found_files(candidates@.len(), measured@),
    {
        measured_scan(self.info.id.as_str(), candidates, measured)
    }

    /// The result of removing the safe targets, given what became of each.
    pub fn clean(&self, targets: &[PluginScanTarget], outcomes: &[RemovalOutcome]) -> (r:
        PluginCleanResult)
        requires
            outcomes@.len() == targets@.len(),
            total_freed_by(targets@, outcomes@) <= u64::MAX,
            total_cleaned_by(targets@, outcomes@) <= u64::MAX,
        ensures
            r.plugin_id@ == self.entry().id@,
            r.freed_space == total_freed_by(targets@, outcomes@),
            r.cleaned_files == total_cleaned_by(targets@, outcomes@),
            r.errors@.map_values(|e: String| e@) == failure_texts(targets@, outcomes@),
            r.success == (failure_texts(targets@, outcomes@).len() == 0),
    {
        tally_clean(self.info.id.as_str(), targets, outcomes)
    }
}

} // verus!
