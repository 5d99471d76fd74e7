//! What every plugin shares: its entry as the user sees it, turning it on
//! and off, and how the outcome of removing its targets is tallied.
use vstd::prelude::*;

use crate::models::plugin::{
    PluginCategory, PluginCleanResult, PluginInfo, PluginScanResult, PluginScanTarget,
    PluginStatus,
};
use crate::services::plugin_manager::switched;
use crate::text::{concat, owned};

verus! {

/// Whether `Path::new(path).starts_with(base)` holds: `base`'s components
/// are the first components of `path`, by the platform's path rules.
pub uninterp spec fn path_starts_with(path: Seq<char>, base: Seq<char>) -> bool;

/// Calls `std::path::Path::starts_with`; the answer is named
/// `path_starts_with` of the two paths.
#[verifier::external_body]
pub(crate) fn starts_with_path(path: &str, base: &str) -> (r: bool)
    ensures
        r == path_starts_with(path@, base@),
{
    std::path::Path::new(path).starts_with(base)
}

/// An empty JSON object (`serde_json::json!({})`), a plugin's settings
/// before any are made.
#[verifier::external_body]
pub(crate) fn no_settings() -> serde_json::Value {
    serde_json::Value::Object(serde_json::Map::new())
}

/// What became of one target when a clean-up ran.
#[derive(Debug, Clone)]
pub enum RemovalOutcome {
    /// Not removed: not safe to clean, or not there.
    Skipped,
    /// Removed as a whole.
    Removed,
    /// This many entries inside it were removed, each counted at the
    /// target's size.
    RemovedEntries(u64),
    /// Removal failed with this error text; the flag tells whether a whole
    /// directory was being removed (else a single file).
    Failed(bool, String),
}

/// The entry of a plugin installed and updated at `now`, with no use
/// counted yet.
pub open spec fn plugin_entry_spec(
    p: PluginInfo,
    id: Seq<char>,
    name: Seq<char>,
    description: Seq<char>,
    status: PluginStatus,
    category: PluginCategory,
    enabled: bool,
    now: Seq<char>,
) -> bool {
    &&& p.id@ == id
    &&& p.name@ == name
    &&& p.version@ == "1.0.0"@
    &&& p.description@ == description
    &&& p.author@ == "CDrive Cleaner"@
    &&& p.status == status
    &&& p.category == category
    &&& p.enabled == enabled
    &&& p.scan_count == 0
    &&& p.clean_count == 0
    &&& p.installed_at@ == now
    &&& p.updated_at@ == now
}

/// A plugin's entry with the given settings.
pub fn plugin_info(
    id: &str,
    name: &str,
    description: &str,
    status: PluginStatus,
    category: PluginCategory,
    enabled: bool,
    config: serde_json::Value,
    now: &str,
) -> (r: PluginInfo)
    ensures
        plugin_entry_spec(r, id@, name@, description@, status, category, enabled, now@),
        r.config == config,
{
    PluginInfo {
        id: owned(id),
        name: owned(name),
        version: owned("1.0.0"),
        description: owned(description),
        author: owned("CDrive Cleaner"),
        status,
        category,
        enabled,
        config,
        scan_count: 0,
        clean_count: 0,
        installed_at: owned(now),
        updated_at: owned(now),
    }
}

/// Turns a plugin's entry on or off, the status to match.
pub fn switch_info(info: &mut PluginInfo, enabled: bool)
    ensures
        *final(info) == switched(*old(info), enabled),
{
    info.enabled = enabled;
    info.status = if enabled {
        PluginStatus::Active
    } else {
        PluginStatus::Inactive
    };
}

/// A scan that found nothing.
pub fn empty_scan(plugin_id: &str) -> (r: PluginScanResult)
    ensures
        r.plugin_id@ == plugin_id@,
        r.targets@.len() == 0,
        r.total_size == 0,
        r.file_count == 0,
{
    PluginScanResult { plugin_id: owned(plugin_id), targets: Vec::new(), total_size: 0, file_count: 0 }
}

/// A clean-up that had nothing to do and succeeded.
pub fn noop_clean(plugin_id: &str) -> (r: PluginCleanResult)
    ensures
        r.plugin_id@ == plugin_id@,
        r.success,
        r.freed_space == 0,
        r.cleaned_files == 0,
        r.errors@.len() == 0,
{
    PluginCleanResult {
        plugin_id: owned(plugin_id),
        success: true,
        freed_space: 0,
        cleaned_files: 0,
        errors: Vec::new(),
    }
}

/// The space a target's outcome freed.
pub open spec fn outcome_freed(t: PluginScanTarget, o: RemovalOutcome) -> nat {
    if !t.safe {
        0
    } else {
        match o {
            RemovalOutcome::Removed => t.size as nat,
            RemovalOutcome::RemovedEntries(n) => (n * t.size) as nat,
            _ => 0,
        }
    }
}

/// The count of removals a target's outcome adds.
pub open spec fn outcome_cleaned(t: PluginScanTarget, o: RemovalOutcome) -> nat {
    if !t.safe {
        0
    } else {
        match o {
            RemovalOutcome::Removed => 1,
            RemovalOutcome::RemovedEntries(n) => n as nat,
            _ => 0,
        }
    }
}

/// The space the outcomes freed in all.
pub open spec fn total_freed_by(ts: Seq<PluginScanTarget>, os: Seq<RemovalOutcome>) -> nat
    decreases ts.len(),
{
    if ts.len() == 0 || os.len() < ts.len() {
        0
    } else {
        total_freed_by(ts.drop_last(), os.take(ts.len() - 1)) + outcome_freed(
            ts.last(),
            os[ts.len() - 1],
        )
    }
}

/// The removals the outcomes count in all.
pub open spec fn total_cleaned_by(ts: Seq<PluginScanTarget>, os: Seq<RemovalOutcome>) -> nat
    decreases ts.len(),
{
    if ts.len() == 0 || os.len() < ts.len() {
        0
    } else {
        total_cleaned_by(ts.drop_last(), os.take(ts.len() - 1)) + outcome_cleaned(
            ts.last(),
            os[ts.len() - 1],
        )
    }
}

/// How a failed removal is introduced: `"清理失败: "` for a directory,
/// `"删除失败: "` for a file.
pub open spec fn failure_label(directory: bool) -> Seq<char> {
    if directory {
        "清理失败: "@
    } else {
        "删除失败: "@
    }
}

/// The error texts of failed removals of safe targets, in order: the label,
/// the target's path, `" - "` and the error.
pub open spec fn failure_texts(ts: Seq<PluginScanTarget>, os: Seq<RemovalOutcome>) -> Seq<
    Seq<char>,
>
    decreases ts.len(),
{
    if ts.len() == 0 || os.len() < ts.len() {
        Seq::empty()
    } else {
        let rest = failure_texts(ts.drop_last(), os.take(ts.len() - 1));
        match os[ts.len() - 1] {
            RemovalOutcome::Failed(d, e) => if ts.last().safe {
                rest.push(failure_label(d) + ts.last().path@ + " - "@ + e@)
            } else {
                rest
            },
            _ => rest,
        }
    }
}

/// Whether a target may be removed: only one marked safe.
pub fn should_clean(target: &PluginScanTarget) -> (r: bool)
    ensures
        r == target.safe,
{
    target.safe
}

/// The result of a clean-up from what became of each target (outcome `i`
/// for target `i`; targets not marked safe count for nothing): the space
/// freed, the removals counted, the errors of failed removals, and success
/// when there were none.
pub fn tally_clean(plugin_id: &str, targets: &[PluginScanTarget], outcomes: &[RemovalOutcome]) -> (r:
    PluginCleanResult)
    requires
        outcomes@.len() == targets@.len(),
        total_freed_by(targets@, outcomes@) <= u64::MAX,
        total_cleaned_by(targets@, outcomes@) <= u64::MAX,
    ensures
        r.plugin_id@ == plugin_id@,
        r.freed_space == total_freed_by(targets@, outcomes@),
        r.cleaned_files == total_cleaned_by(targets@, outcomes@),
        r.errors@.map_values(|e: String| e@) == failure_texts(targets@, outcomes@),
        r.success == (failure_texts(targets@, outcomes@).len() == 0),
{
    let mut freed: u64 = 0;
    let mut cleaned: u64 = 0;
    let mut errors: Vec<String> = Vec::new();
    let mut i: usize = 0;
    while i < targets.len()
        invariant
            i <= targets@.len(),
            outcomes@.len() == targets@.len(),
            total_freed_by(targets@, outcomes@) <= u64::MAX,
            total_cleaned_by(targets@, outcomes@) <= u64::MAX,
            freed == total_freed_by(targets@.take(i as int), outcomes@.take(i as int)),
            cleaned == total_cleaned_by(targets@.take(i as int), outcomes@.take(i as int)),
            errors@.map_values(|e: String| e@) == failure_texts(
                targets@.take(i as int),
                outcomes@.take(i as int),
            ),
        decreases targets@.len() - i,
    {
        let ghost ts = targets@.take(i + 1);
        let ghost os = outcomes@.take(i + 1);
        proof {
            assert(ts.drop_last() == targets@.take(i as int));
            assert(os.take(i as int) == outcomes@.take(i as int));
            lemma_totals_prefix(targets@, outcomes@, i + 1);
        }
        let ghost prev = errors@.map_values(|e: String| e@);
        let t = &targets[i];
        if t.safe {
            match &outcomes[i] {
                RemovalOutcome::Removed => {
                    freed = freed + t.size;
                    cleaned = cleaned + 1;
                },
                RemovalOutcome::RemovedEntries(n) => {
                    assert(*n * t.size <= u64::MAX);
                    freed = freed + *n * t.size;
                    cleaned = cleaned + *n;
                },
                RemovalOutcome::Failed(d, e) => {
                    let label = if *d {
                        "清理失败: "
                    } else {
                        "删除失败: "
                    };
                    let mut msg = concat(label, t.path.as_str());
                    msg.append(" - ");
                    msg.append(e.as_str());
                    errors.push(msg);
                    assert(errors@.map_values(|e: String| e@) =~= prev.push(
                        failure_label(*d) + t.path@ + " - "@ + e@,
                    ));
                },
                RemovalOutcome::Skipped => {},
            }
        }
        i = i + 1;
    }
    assert(targets@.take(targets@.len() as int) == targets@);
    assert(outcomes@.take(outcomes@.len() as int) == outcomes@);
    let success = errors.len() == 0;
    PluginCleanResult { plugin_id: owned(plugin_id), success, freed_space: freed, cleaned_files: cleaned, errors }
}

proof fn lemma_totals_prefix(ts: Seq<PluginScanTarget>, os: Seq<RemovalOutcome>, i: int)
    requires
        0 <= i <= ts.len(),
        os.len() == ts.len(),
    ensures
        total_freed_by(ts.take(i), os.take(i)) <= total_freed_by(ts, os),
        total_cleaned_by(ts.take(i), os.take(i)) <= total_cleaned_by(ts, os),
    decreases ts.len(),
{
    if i < ts.len() {
        assert(ts.drop_last().take(i) == ts.take(i));
        assert(os.take(ts.len() - 1).take(i) == os.take(i));
        lemma_totals_prefix(ts.drop_last(), os.take(ts.len() - 1), i);
    } else {
        assert(ts.take(i) == ts);
        assert(os.take(i) == os);
    }
}

} // verus!

verus! {

/// A target as found: where it is, what it is called, whether it is safe
/// to clean and why, before its size is known.
pub open spec fn measured_target(c: PluginScanTarget, size: u64) -> PluginScanTarget {
    PluginScanTarget { size, ..c }
}

/// The size a measurement gives, or 0 for a candidate not there.
pub open spec fn measured_size(m: Option<(u64, u64)>) -> u64 {
    match m {
        Some((size, _)) => size,
        None => 0,
    }
}

/// The file count a measurement gives, or 0 for a candidate not there.
pub open spec fn measured_files(m: Option<(u64, u64)>) -> u64 {
    match m {
        Some((_, files)) => files,
        None => 0,
    }
}

/// The candidates that were found, each with the size measured for it
/// (`measured[i]` for candidate `i`: its size and file count, or `None`
/// when it is not there), in order.
pub open spec fn found_targets(cs: Seq<PluginScanTarget>, ms: Seq<Option<(u64, u64)>>) -> Seq<
    PluginScanTarget,
>
    decreases cs.len(),
{
    if cs.len() == 0 {
        Seq::empty()
    } else {
        let rest = found_targets(cs.drop_last(), ms);
        let i = cs.len() - 1;
        if i < ms.len() && ms[i] is Some {
            rest.push(measured_target(cs.last(), measured_size(ms[i])))
        } else {
            rest
        }
    }
}

/// The total measured size of the candidates found.
pub open spec fn found_size(n: nat, ms: Seq<Option<(u64, u64)>>) -> nat
    decreases n,
{
    if n == 0 {
        0
    } else {
        found_size((n - 1) as nat, ms) + if (n - 1) < ms.len() {
            measured_size(ms[n - 1]) as nat
        } else {
            0nat
        }
    }
}

/// The total measured file count of the candidates found.
pub open spec fn found_files(n: nat, ms: Seq<Option<(u64, u64)>>) -> nat
    decreases n,
{
    if n == 0 {
        0
    } else {
        found_files((n - 1) as nat, ms) + if (n - 1) < ms.len() {
            measured_files(ms[n - 1]) as nat
        } else {
            0nat
        }
    }
}

proof fn lemma_found_prefix(n: nat, k: nat, ms: Seq<Option<(u64, u64)>>)
    requires
        k <= n,
    ensures
        found_size(k, ms) <= found_size(n, ms),
        found_files(k, ms) <= found_files(n, ms),
    decreases n,
{
    if k < n {
        lemma_found_prefix((n - 1) as nat, k, ms);
    }
}

/// The scan result of candidates whose sizes were measured: the targets
/// found, with their sizes, and the totals of size and files.
pub fn measured_scan(
    plugin_id: &str,
    candidates: &[PluginScanTarget],
    measured: &[Option<(u64, u64)>],
) -> (r: PluginScanResult)
    requires
        found_size(candidates@.len(), measured@) <= u64::MAX,
        found_files(candidates@.len(), measured@) <= u64::MAX,
    ensures
        r.plugin_id@ == plugin_id@,
        r.targets@ == found_targets(candidates@, measured@),
        r.total_size == found_size(candidates@.len(), measured@),
        r.file_count == found_files(candidates@.len(), measured@),
{
    let mut targets: Vec<PluginScanTarget> = Vec::new();
    let mut total: u64 = 0;
    let mut files: u64 = 0;
    let mut i: usize = 0;
    while i < candidates.len()
        invariant
            i <= candidates@.len(),
            found_size(candidates@.len(), measured@) <= u64::MAX,
            found_files(candidates@.len(), measured@) <= u64::MAX,
            targets@ == found_targets(candidates@.take(i as int), measured@),
            total == found_size(i as nat, measured@),
            files == found_files(i as nat, measured@),
        decreases candidates@.len() - i,
    {
        proof {
            assert(candidates@.take(i + 1).drop_last() == candidates@.take(i as int));
            lemma_found_prefix(candidates@.len(), (i + 1) as nat, measured@);
        }
        if i < measured.len() {
            match measured[i] {
                Some((size, count)) => {
                    let mut t = candidates[i].clone();
                    t.size = size;
                    targets.push(t);
                    total = total + size;
                    files = files + count;
                },
                None => {},
            }
        }
        i = i + 1;
    }
    assert(candidates@.take(candidates@.len() as int) == candidates@);
    PluginScanResult { plugin_id: owned(plugin_id), targets, total_size: total, file_count: files }
}

} // verus!
