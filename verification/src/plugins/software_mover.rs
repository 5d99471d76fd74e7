//! The software mover plugin: its entry, and which installed programs on
//! the system drive it lists for moving.
use vstd::prelude::*;

use crate::models::plugin::{
    PluginCategory, PluginCleanResult, PluginInfo, PluginScanResult, PluginScanTarget,
    PluginStatus,
};
use crate::plugins::common::{
    no_settings, noop_clean, path_starts_with, plugin_entry_spec, plugin_info, starts_with_path,
    switch_info,
};
use crate::services::plugin_manager::switched;
use crate::services::software_detector::{InstalledSoftware, SoftwareDetector};
use crate::text::concat3;
use crate::utils::file_utils::{as_float, fixed1, fixed1_of, nearest_float, tenths};

verus! {

/// Whether an installed program is listed: it has an install folder and a
/// size, the folder exists and lies on the system drive.
pub open spec fn movable(s: InstalledSoftware, exists: bool) -> bool {
    s.install_path@.len() > 0 && s.estimated_size > 0 && exists && path_starts_with(
        s.install_path@,
        "C:\\"@,
    )
}

/// Whether `t` is the target listed for a program: its folder and name, its
/// size, not removable here, its publisher and size in MB as reason.
pub open spec fn is_mover_target(t: PluginScanTarget, s: InstalledSoftware) -> bool {
    &&& t.path@ == s.install_path@
    &&& t.name@ == s.name@
    &&& t.size == s.estimated_size
    &&& !t.safe
    &&& t.reason@ == s.publisher@ + " - "@ + fixed1(tenths(nearest_float(s.estimated_size as nat), 0x10_0000)) + "MB"@
}

/// The programs listed, in order (`exists[i]` tells whether program `i`'s
/// folder exists).
pub open spec fn movable_programs(sw: Seq<InstalledSoftware>, exists: Seq<bool>) -> Seq<InstalledSoftware>
    decreases sw.len(),
{
    if sw.len() == 0 {
        Seq::empty()
    } else {
        let rest = movable_programs(sw.drop_last(), exists);
        let i = sw.len() - 1;
        if i < exists.len() && movable(sw.last(), exists[i]) {
            rest.push(sw.last())
        } else {
            rest
        }
    }
}

/// The total size of the programs.
pub open spec fn programs_size(sw: Seq<InstalledSoftware>) -> nat
    decreases sw.len(),
{
    if sw.len() == 0 {
        0
    } else {
        programs_size(sw.drop_last()) + sw.last().estimated_size as nat
    }
}

/// Lists installed programs that can move off the system drive.
#[derive(Debug)]
pub struct SoftwareMoverPlugin {
    info: PluginInfo,
    detector: SoftwareDetector,
}

impl SoftwareMoverPlugin {
    /// The plugin's entry.
    pub closed spec fn entry(&self) -> PluginInfo {
        self.info
    }

    /// The plugin, installed at `now`.
    pub fn new(now: &str) -> (r: Self)
        ensures
            plugin_entry_spec(r.entry(), "software-mover"@, "软件搬家"@, "无损迁移已安装软件到其他盘，无需重装"@, PluginStatus::Active, PluginCategory::App, true, now@),
    {
        SoftwareMoverPlugin {
            info: plugin_info("software-mover", "软件搬家", "无损迁移已安装软件到其他盘，无需重装", PluginStatus::Active, PluginCategory::App, true, no_settings(), now),
            detector: SoftwareDetector::new(),
        }
    }

    /// The plugin's entry.
    pub fn info(&self) -> (r: &PluginInfo)
        ensures
            *r == self.entry(),
    {
        &self.info
    }

    /// Whether the plugin is on.
    pub fn enabled(&self) -> (r: bool)
        ensures
            r == self.entry().enabled,
    {
        self.info.enabled
    }

    /// Turns the plugin on or off.
    pub fn set_enabled(&mut self, enabled: bool)
        ensures
            final(self).entry() == switched(old(self).entry(), enabled),
    {
        switch_info(&mut self.info, enabled);
    }


    /// The scan result: the programs listed, their total size, and their
    /// count.
    pub fn scan(&self, software: &[InstalledSoftware], exists: &[bool]) -> (r: PluginScanResult)
        requires
            programs_size(movable_programs(software@, exists@)) <= u64::MAX,
        ensures
            r.plugin_id@ == self.entry().id@,
            r.targets@.len() == movable_programs(software@, exists@).len(),
            forall|i: int|
                0 <= i < r.targets@.len() ==> is_mover_target(
                    #[trigger] r.targets@[i],
                    movable_programs(software@, exists@)[i],
                ),
            r.total_size == programs_size(movable_programs(software@, exists@)),
            r.file_count == r.targets@.len(),
    {
        let mut targets: Vec<PluginScanTarget> = Vec::new();
        let mut total: u64 = 0;
        let mut i: usize = 0;
        while i < software.len()
            invariant
                i <= software@.len(),
                programs_size(movable_programs(software@, exists@)) <= u64::MAX,
                targets@.len() == movable_programs(software@.take(i as int), exists@).len(),
                forall|k: int|
                    0 <= k < targets@.len() ==> is_mover_target(
                        #[trigger] targets@[k],
                        movable_programs(software@.take(i as int), exists@)[k],
                    ),
                total == programs_size(movable_programs(software@.take(i as int), exists@)),
            decreases software@.len() - i,
        {
            proof {
                assert(software@.take(i + 1).drop_last() == software@.take(i as int));
                lemma_movable_prefix(software@, exists@, i + 1);
            }
            let s = &software[i];
            if !s.install_path.as_str().is_empty() && s.estimated_size > 0 && i < exists.len()
                && exists[i] && starts_with_path(s.install_path.as_str(), "C:\\") {
                proof {
                    let prev = movable_programs(software@.take(i as int), exists@);
                    assert(software@.take(i + 1).last() == software@[i as int]);
                    assert(movable_programs(software@.take(i + 1), exists@) == prev.push(
                        software@[i as int],
                    ));
                    assert(prev.push(software@[i as int]).drop_last() == prev);
                }
                let mb = fixed1_of(as_float(s.estimated_size), 0x10_0000, "MB");
                let reason = concat3(s.publisher.as_str(), " - ", mb.as_str());
                assert(reason@ =~= s.publisher@ + " - "@ + fixed1(
                    tenths(nearest_float(s.estimated_size as nat), 0x10_0000),
                ) + "MB"@);
                targets.push(
                    PluginScanTarget {
                        path: s.install_path.clone(),
                        name: s.name.clone(),
                        size: s.estimated_size,
                        safe: false,
                        reason,
                    },
                );
                total = total + s.estimated_size;
            }
            i = i + 1;
        }
        assert(software@.take(software@.len() as int) == software@);
        let count = targets.len() as u64;
        PluginScanResult { plugin_id: self.info.id.clone(), targets, total_size: total, file_count: count }
    }

    /// The space a move frees from the system drive is not counted here.
    pub fn clean(&self, targets: &[PluginScanTarget]) -> (r: PluginCleanResult)
        ensures
            r.plugin_id@ == self.entry().id@,
            r.success,
            r.freed_space == 0,
            r.cleaned_files == 0,
            r.errors@.len() == 0,
    {
        noop_clean(self.info.id.as_str())
    }
}

proof fn lemma_movable_prefix(sw: Seq<InstalledSoftware>, exists: Seq<bool>, i: int)
    requires
        0 <= i <= sw.len(),
    ensures
        programs_size(movable_programs(sw.take(i), exists)) <= programs_size(
            movable_programs(sw, exists),
        ),
    decreases sw.len(),
{
    if i < sw.len() {
        assert(sw.drop_last().take(i) == sw.take(i));
        lemma_movable_prefix(sw.drop_last(), exists, i);
        let rest = movable_programs(sw.drop_last(), exists);
        assert(rest.push(sw.last()).drop_last() == rest);
    } else {
        assert(sw.take(i) == sw);
    }
}

} // verus!
