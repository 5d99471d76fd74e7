//! User settings, the AI provider choice and the whitelist.
use vstd::prelude::*;

verus! {

/// A hosted model service.
#[derive(Debug, Clone, Copy, PartialEq, Eq, Structural)]
pub enum CloudModelProvider {
    OpenAI,
    Anthropic,
    DeepSeek,
    Qwen,
    Custom,
}

/// Where file analysis runs: on the machine or at a hosted service.
#[derive(Debug, Clone, Copy, PartialEq, Eq, Structural)]
pub enum AIProvider {
    Local,
    Cloud(CloudModelProvider),
}

impl AIProvider {
    /// Whether analysis goes to a hosted service.
    pub fn is_cloud(&self) -> (r: bool)
        ensures
            r == (*self is Cloud),
    {
        match self {
            AIProvider::Local => false,
            AIProvider::Cloud(_) => true,
        }
    }

    /// The hosted service, when there is one.
    pub fn as_cloud_model_provider(&self) -> (r: Option<CloudModelProvider>)
        ensures
            match *self {
                AIProvider::Local => r is None,
                AIProvider::Cloud(p) => r == Some(p),
            },
    {
        match self {
            AIProvider::Local => None,
            AIProvider::Cloud(p) => Some(*p),
        }
    }
}

/// How the cleaner behaves for this user.
#[derive(Debug, Clone)]
pub struct UserPreferences {
    pub auto_scan_on_start: bool,
    pub scan_mode: String,
    pub clean_confirm_required: bool,
    pub backup_before_clean: bool,
    pub language: String,
    pub theme: String,
}

impl Default for UserPreferences {
    fn default() -> (r: Self)
        ensures
            !r.auto_scan_on_start,
            r.scan_mode@ == "quick"@,
            r.clean_confirm_required,
            r.backup_before_clean,
            r.language@ == "zh-CN"@,
            r.theme@ == "dark"@,
    {
        UserPreferences {
            auto_scan_on_start: false,
            scan_mode: crate::text::owned("quick"),
            clean_confirm_required: true,
            backup_before_clean: true,
            language: crate::text::owned("zh-CN"),
            theme: crate::text::owned("dark"),
        }
    }
}

/// A path the user asked never to clean.
#[derive(Debug)]
pub struct WhitelistEntry {
    pub id: String,
    pub path: String,
    pub reason: String,
    pub added_at: String,
    pub enabled: bool,
}

impl Clone for WhitelistEntry {
    fn clone(&self) -> (r: Self)
        ensures
            r == *self,
    {
        WhitelistEntry {
            id: self.id.clone(),
            path: self.path.clone(),
            reason: self.reason.clone(),
            added_at: self.added_at.clone(),
            enabled: self.enabled,
        }
    }
}

/// The whitelist and whether it is in force.
#[derive(Debug, Clone)]
pub struct WhitelistConfig {
    pub paths: Vec<WhitelistEntry>,
    pub global_enabled: bool,
}

impl Default for WhitelistConfig {
    fn default() -> (r: Self)
        ensures
            r.paths@.len() == 0,
            r.global_enabled,
    {
        WhitelistConfig { paths: Vec::new(), global_enabled: true }
    }
}

/// The entries whose path is not `path`, in order.
pub open spec fn without_path(entries: Seq<WhitelistEntry>, path: Seq<char>) -> Seq<WhitelistEntry> {
    entries.filter(|e: WhitelistEntry| e.path@ != path)
}

impl WhitelistConfig {
    /// The whitelist as loaded: the stored entries, in force.
    pub fn from_entries(entries: Vec<WhitelistEntry>) -> (r: Self)
        ensures
            r.paths@ == entries@,
            r.global_enabled,
    {
        WhitelistConfig { paths: entries, global_enabled: true }
    }

    /// Adds an entry at the end.
    pub fn add_entry(&mut self, entry: WhitelistEntry)
        ensures
            final(self).paths@ == old(self).paths@.push(entry),
            final(self).global_enabled == old(self).global_enabled,
    {
        self.paths.push(entry);
    }

    /// Removes every entry for this path, keeping the others in order.
    pub fn remove_path(&mut self, path: &str)
        ensures
            final(self).paths@ == without_path(old(self).paths@, path@),
            final(self).global_enabled == old(self).global_enabled,
    {
        let ghost before = self.paths@;
        let mut kept: Vec<WhitelistEntry> = Vec::new();
        let mut i: usize = 0;
        while i < self.paths.len()
            invariant
                i <= before.len(),
                before == self.paths@,
                kept@ == without_path(before.take(i as int), path@),
            decreases before.len() - i,
        {
            proof {
                reveal_with_fuel(Seq::filter, 1);
                assert(before.take(i + 1).drop_last() == before.take(i as int));
            }
            if !crate::text::str_eq(self.paths[i].path.as_str(), path) {
                kept.push(self.paths[i].clone());
            }
            i = i + 1;
        }
        assert(before.take(before.len() as int) == before);
        self.paths = kept;
    }
}

/// After the entries for a path are removed, no entry has that path, and
/// every entry with another path is still there.
pub proof fn lemma_removed_path_gone(entries: Seq<WhitelistEntry>, path: Seq<char>)
    ensures
        forall|i: int|
            0 <= i < without_path(entries, path).len() ==> (#[trigger] without_path(
                entries,
                path,
            )[i]).path@ != path,
        forall|e: WhitelistEntry|
            entries.contains(e) && e.path@ != path ==> #[trigger] without_path(
                entries,
                path,
            ).contains(e),
{
    broadcast use vstd::seq_lib::group_filter_ensures;

    assert forall|e: WhitelistEntry| entries.contains(e) && e.path@ != path implies #[trigger] without_path(
        entries,
        path,
    ).contains(e) by {
        let i = choose|i: int| 0 <= i < entries.len() && entries[i] == e;
        assert(entries[i].path@ != path);
    }
}

} // verus!
