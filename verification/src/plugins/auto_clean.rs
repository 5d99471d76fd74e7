//! The automatic cleaning plugin: its entry and settings, and when an
//! emergency clean-up is due.
use vstd::prelude::*;

use crate::models::plugin::{
    PluginCategory, PluginCleanResult, PluginInfo, PluginScanResult, PluginScanTarget,
    PluginStatus,
};
use crate::plugins::common::{
    empty_scan, noop_clean, plugin_entry_spec, plugin_info, switch_info,
};
use crate::services::plugin_manager::switched;

verus! {

/// The JSON object that `serde_json` builds with these three entries, in
/// this order: a number, a number and a boolean under their keys.
pub uninterp spec fn settings_json(
    hours_key: Seq<char>,
    schedule_hours: u64,
    free_key: Seq<char>,
    min_free_gb: u64,
    auto_key: Seq<char>,
    auto_enabled: bool,
) -> serde_json::Value;

/// Builds a JSON object of three entries with `serde_json::Map::insert`
/// and `serde_json::Value`; the object is named `settings_json` of the
/// keys and values.
#[verifier::external_body]
fn settings_object(
    hours_key: &str,
    schedule_hours: u64,
    free_key: &str,
    min_free_gb: u64,
    auto_key: &str,
    auto_enabled: bool,
) -> (r: serde_json::Value)
    ensures
        r == settings_json(hours_key@, schedule_hours, free_key@, min_free_gb, auto_key@, auto_enabled),
{
    let mut m = serde_json::Map::new();
    m.insert(hours_key.to_string(), serde_json::Value::from(schedule_hours));
    m.insert(free_key.to_string(), serde_json::Value::from(min_free_gb));
    m.insert(auto_key.to_string(), serde_json::Value::Bool(auto_enabled));
    serde_json::Value::Object(m)
}

/// The settings key of how often automatic cleaning runs.
pub const SCHEDULE_HOURS_KEY: &'static str = "schedule_hours";

/// The settings key of the free space below which an emergency clean-up is
/// due.
pub const MIN_FREE_SPACE_KEY: &'static str = "min_free_space_gb";

/// The settings key of whether automatic cleaning is on.
pub const AUTO_ENABLED_KEY: &'static str = "auto_enabled";

/// How often automatic cleaning runs, in hours, when first installed.
pub const DEFAULT_SCHEDULE_HOURS: u64 = 24;

/// The free space, in GiB, below which an emergency clean-up is due, when
/// first installed.
pub const DEFAULT_MIN_FREE_GB: u64 = 10;

/// Cleans on a schedule and when the system drive runs low.
#[derive(Debug)]
pub struct AutoCleanPlugin {
    info: PluginInfo,
    auto_enabled: bool,
    min_free_space_gb: u64,
}

/// The disk that an emergency check reads: the first whose mount point is
/// `"C:\\"` or `"C:"`.
pub open spec fn system_disk(disks: Seq<(String, u64)>) -> Option<int>
    decreases disks.len(),
{
    if disks.len() == 0 {
        None
    } else if disks[0].0@ == "C:\\"@ || disks[0].0@ == "C:"@ {
        Some(0)
    } else {
        match system_disk(disks.drop_first()) {
            Some(i) => Some(i + 1),
            None => None,
        }
    }
}

impl AutoCleanPlugin {
    /// The plugin's entry.
    pub closed spec fn entry(&self) -> PluginInfo {
        self.info
    }

    /// The plugin, installed at `now`.
    pub fn new(now: &str) -> (r: Self)
        ensures
            plugin_entry_spec(r.entry(), "auto-clean"@, "自动清理"@, "定时自动清理，空间不足时触发紧急清理"@, PluginStatus::Inactive, PluginCategory::System, false, now@),
            r.entry().config == settings_json(
                SCHEDULE_HOURS_KEY@,
                DEFAULT_SCHEDULE_HOURS,
                MIN_FREE_SPACE_KEY@,
                DEFAULT_MIN_FREE_GB,
                AUTO_ENABLED_KEY@,
                false,
            ),
            !r.auto(),
            r.min_free_gb() == DEFAULT_MIN_FREE_GB,
    {
        let auto_enabled = false;
        let settings = settings_object(
            SCHEDULE_HOURS_KEY,
            DEFAULT_SCHEDULE_HOURS,
            MIN_FREE_SPACE_KEY,
            DEFAULT_MIN_FREE_GB,
            AUTO_ENABLED_KEY,
            auto_enabled,
        );
        AutoCleanPlugin {
            info: plugin_info("auto-clean", "自动清理", "定时自动清理，空间不足时触发紧急清理", PluginStatus::Inactive, PluginCategory::System, auto_enabled, settings, now),
            auto_enabled,
            min_free_space_gb: DEFAULT_MIN_FREE_GB,
        }
    }

    /// The plugin's entry.
    pub fn info(&self) -> (r: &PluginInfo)
        ensures
            *r == self.entry(),
    {
        &self.info
    }

    /// Whether the plugin is on.
    pub fn enabled(&self) -> (r: bool)
        ensures
            r == self.entry().enabled,
    {
        self.info.enabled
    }

    /// Whether automatic cleaning is on.
    pub closed spec fn auto(&self) -> bool {
        self.auto_enabled
    }

    /// The free space, in GiB, below which an emergency clean-up is due.
    pub closed spec fn min_free_gb(&self) -> u64 {
        self.min_free_space_gb
    }

    /// Turns the plugin, and automatic cleaning with it, on or off.
    pub fn set_enabled(&mut self, enabled: bool)
        ensures
            final(self).entry() == switched(old(self).entry(), enabled),
            final(self).auto() == enabled,
            final(self).min_free_gb() == old(self).min_free_gb(),
    {
        switch_info(&mut self.info, enabled);
        self.auto_enabled = enabled;
    }

    /// Whether an emergency clean-up is due, given each disk's mount point
    /// and free bytes: the system disk has less free space than the
    /// threshold; no system disk means no.
    pub fn should_trigger_emergency(&self, disks: &[(String, u64)]) -> (r: bool)
        ensures
            r == (match system_disk(disks@) {
                Some(i) => (disks@[i].1 as nat) < (self.min_free_gb() as nat) * 0x4000_0000,
                None => false,
            }),
    {
        let mut i: usize = 0;
        assert(disks@.skip(0) =~= disks@);
        while i < disks.len()
            invariant
                i <= disks@.len(),
                system_disk(disks@) == match system_disk(disks@.skip(i as int)) {
                    Some(k) => Some(k + i),
                    None => None,
                },
            decreases disks@.len() - i,
        {
            let mount = disks[i].0.as_str();
            proof {
                assert(disks@.skip(i as int)[0] == disks@[i as int]);
                assert(disks@.skip(i as int).drop_first() == disks@.skip(i + 1));
            }
            if crate::text::str_eq(mount, "C:\\") || crate::text::str_eq(mount, "C:") {
                let threshold: u128 = (self.min_free_space_gb as u128) * 0x4000_0000;
                return (disks[i].1 as u128) < threshold;
            }
            i = i + 1;
        }
        assert(disks@.skip(i as int).len() == 0);
        false
    }

    /// A scan finds nothing by itself: it only schedules the other plugins.
    pub fn scan(&self) -> (r: PluginScanResult)
        ensures
            r.plugin_id@ == self.entry().id@,
            r.targets@.len() == 0,
            r.total_size == 0,
            r.file_count == 0,
    {
        empty_scan(self.info.id.as_str())
    }

    /// The space a clean-up would free by itself: none.
    pub fn estimate(&self) -> (r: u64)
        ensures
            r == 0,
    {
        0
    }

    /// A clean-up removes nothing: the other plugins do the cleaning.
    pub fn clean(&self, targets: &[PluginScanTarget]) -> (r: PluginCleanResult)
        ensures
            r.plugin_id@ == self.entry().id@,
            r.success,
            r.freed_space == 0,
            r.cleaned_files == 0,
            r.errors@.len() == 0,
    {
        noop_clean(self.info.id.as_str())
    }
}

} // verus!
