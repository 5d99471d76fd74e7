//! The registry of plugins: the built-in set, and turning plugins on and
//! off, adding and removing them, each plugin known by its id.
use vstd::prelude::*;

use crate::error::AppError;
use crate::models::plugin::{PluginCategory, PluginInfo, PluginStatus};
use crate::text::{concat, owned, str_eq};

verus! {

/// The plugins, at most one per id.
#[derive(Debug, Clone)]
pub struct PluginManager {
    plugins: Vec<PluginInfo>,
}

/// The plugins of a list by id, a later one replacing an earlier one with
/// the same id.
pub open spec fn by_id(s: Seq<PluginInfo>) -> Map<Seq<char>, PluginInfo>
    decreases s.len(),
{
    if s.len() == 0 {
        Map::empty()
    } else {
        by_id(s.drop_last()).insert(s.last().id@, s.last())
    }
}

/// No two plugins of the list share an id.
pub open spec fn distinct_ids(s: Seq<PluginInfo>) -> bool {
    forall|i: int, j: int| 0 <= i < j < s.len() ==> (#[trigger] s[i]).id@ != (#[trigger] s[j]).id@
}

/// The built-in plugins: id, name, description, status, category, and
/// whether it is on.
pub open spec fn default_plugin_spec(k: int) -> (Seq<char>, Seq<char>, Seq<char>, PluginStatus, PluginCategory, bool) {
    if k == 0 {
        ("system-junk"@, "系统垃圾清理"@, "清理临时文件、日志、更新缓存、缩略图等系统垃圾"@, PluginStatus::Active, PluginCategory::System, true)
    } else if k == 1 {
        ("system-redundant"@, "系统冗余清理"@, "清理Windows.old、WinSxS冗余、旧还原点等"@, PluginStatus::Active, PluginCategory::System, true)
    } else if k == 2 {
        ("social-app"@, "社交软件清理"@, "清理微信、QQ、企业微信等聊天缓存"@, PluginStatus::Active, PluginCategory::App, true)
    } else if k == 3 {
        ("browser"@, "浏览器清理"@, "清理Chrome、Edge、Firefox等浏览器缓存"@, PluginStatus::Active, PluginCategory::Browser, true)
    } else if k == 4 {
        ("large-file"@, "大文件分析"@, "定位100MB以上大文件，支持智能筛选"@, PluginStatus::Active, PluginCategory::System, true)
    } else if k == 5 {
        ("duplicate-file"@, "重复文件清理"@, "识别重复文件、相似图片，智能推荐删除"@, PluginStatus::Active, PluginCategory::System, true)
    } else if k == 6 {
        ("ai-migrate"@, "AI智能迁移"@, "AI自动识别可迁移文件，无损迁移到其他盘"@, PluginStatus::Active, PluginCategory::System, true)
    } else if k == 7 {
        ("software-mover"@, "软件搬家"@, "无损迁移已安装软件到其他盘，无需重装"@, PluginStatus::Active, PluginCategory::App, true)
    } else {
        ("auto-clean"@, "自动清理"@, "定时自动清理，空间不足时触发紧急清理"@, PluginStatus::Inactive, PluginCategory::System, false)
    }
}

/// Whether `p` is built-in plugin number `k`, installed and updated at `now`.
pub open spec fn is_default_plugin(p: PluginInfo, k: int, now: Seq<char>) -> bool {
    let (id, name, description, status, category, enabled) = default_plugin_spec(k);
    &&& p.id@ == id
    &&& p.name@ == name
    &&& p.version@ == "1.0.0"@
    &&& p.description@ == description
    &&& p.author@ == "CDrive Cleaner"@
    &&& p.status == status
    &&& p.category == category
    &&& p.enabled == enabled
    &&& p.scan_count == 0
    &&& p.clean_count == 0
    &&& p.installed_at@ == now
    &&& p.updated_at@ == now
}

/// The plugin turned on or off: `enabled` set and the status to match.
pub open spec fn switched(p: PluginInfo, on: bool) -> PluginInfo {
    PluginInfo {
        enabled: on,
        status: if on {
            PluginStatus::Active
        } else {
            PluginStatus::Inactive
        },
        ..p
    }
}

/// A built-in plugin with its settings empty and no use counted.
fn plugin_entry(
    id: &str,
    name: &str,
    description: &str,
    status: PluginStatus,
    category: PluginCategory,
    enabled: bool,
    now: &str,
) -> (r: PluginInfo)
    ensures
        r.id@ == id@,
        r.name@ == name@,
        r.version@ == "1.0.0"@,
        r.description@ == description@,
        r.author@ == "CDrive Cleaner"@,
        r.status == status,
        r.category == category,
        r.enabled == enabled,
        r.scan_count == 0,
        r.clean_count == 0,
        r.installed_at@ == now@,
        r.updated_at@ == now@,
{
    PluginInfo {
        id: owned(id),
        name: owned(name),
        version: owned("1.0.0"),
        description: owned(description),
        author: owned("CDrive Cleaner"),
        status,
        category,
        enabled,
        config: crate::plugins::common::no_settings(),
        scan_count: 0,
        clean_count: 0,
        installed_at: owned(now),
        updated_at: owned(now),
    }
}

/// The error for an id that no plugin has.
fn missing_plugin(plugin_id: &str) -> (r: AppError)
    ensures
        r matches AppError::PluginError(m) && m@ == "插件不存在: "@ + plugin_id@,
{
    AppError::PluginError(concat("插件不存在: ", plugin_id))
}

proof fn lemma_by_id_dom(s: Seq<PluginInfo>)
    ensures
        forall|k: Seq<char>|
            #[trigger] by_id(s).dom().contains(k) <==> exists|i: int|
                0 <= i < s.len() && (#[trigger] s[i]).id@ == k,
        by_id(s).dom().finite(),
    decreases s.len(),
{
    if s.len() > 0 {
        lemma_by_id_dom(s.drop_last());
        assert forall|k: Seq<char>| #[trigger] by_id(s).dom().contains(k) implies exists|i: int|
            0 <= i < s.len() && (#[trigger] s[i]).id@ == k by {
            if k != s.last().id@ {
                let i = choose|i: int| 0 <= i < s.len() - 1 && (#[trigger] s.drop_last()[i]).id@ == k;
                assert(s[i] == s.drop_last()[i]);
            } else {
                assert(s[s.len() - 1].id@ == k);
            }
        }
        assert forall|k: Seq<char>| (exists|i: int| 0 <= i < s.len() && (#[trigger] s[i]).id@ == k)
            implies #[trigger] by_id(s).dom().contains(k) by {
            let i = choose|i: int| 0 <= i < s.len() && (#[trigger] s[i]).id@ == k;
            if i < s.len() - 1 {
                assert(s.drop_last()[i] == s[i]);
            }
        }
    }
}

proof fn lemma_by_id_value(s: Seq<PluginInfo>, i: int)
    requires
        distinct_ids(s),
        0 <= i < s.len(),
    ensures
        by_id(s).dom().contains(s[i].id@),
        by_id(s)[s[i].id@] == s[i],
    decreases s.len(),
{
    lemma_by_id_dom(s);
    if i < s.len() - 1 {
        assert(s.drop_last()[i] == s[i]);
        lemma_by_id_value(s.drop_last(), i);
        assert(s.last().id@ != s[i].id@);
    }
}

proof fn lemma_by_id_update(s: Seq<PluginInfo>, i: int, x: PluginInfo)
    requires
        distinct_ids(s),
        0 <= i < s.len(),
        x.id@ == s[i].id@,
    ensures
        by_id(s.update(i, x)) == by_id(s).insert(x.id@, x),
        distinct_ids(s.update(i, x)),
    decreases s.len(),
{
    let t = s.update(i, x);
    assert forall|a: int, b: int| 0 <= a < b < t.len() implies (#[trigger] t[a]).id@ != (
    #[trigger] t[b]).id@ by {
        assert(t[a].id@ == s[a].id@);
        assert(t[b].id@ == s[b].id@);
    }
    if i == s.len() - 1 {
        assert(t.drop_last() == s.drop_last());
        assert(by_id(t) =~= by_id(s).insert(x.id@, x));
    } else {
        assert(t.drop_last() == s.drop_last().update(i, x));
        assert(s.drop_last()[i] == s[i]);
        lemma_by_id_update(s.drop_last(), i, x);
        assert(s.last().id@ != x.id@);
        assert(by_id(t) =~= by_id(s).insert(x.id@, x));
    }
}

proof fn lemma_by_id_remove(s: Seq<PluginInfo>, i: int)
    requires
        distinct_ids(s),
        0 <= i < s.len(),
    ensures
        by_id(s.remove(i)) == by_id(s).remove(s[i].id@),
        distinct_ids(s.remove(i)),
    decreases s.len(),
{
    let t = s.remove(i);
    assert forall|a: int, b: int| 0 <= a < b < t.len() implies (#[trigger] t[a]).id@ != (
    #[trigger] t[b]).id@ by {
        let sa = if a < i { a } else { a + 1 };
        let sb = if b < i { b } else { b + 1 };
        assert(t[a] == s[sa]);
        assert(t[b] == s[sb]);
    }
    if i == s.len() - 1 {
        assert(t == s.drop_last());
        lemma_by_id_dom(s.drop_last());
        assert forall|j: int| 0 <= j < s.len() - 1 implies (#[trigger] s.drop_last()[j]).id@
            != s[i].id@ by {
            assert(s.drop_last()[j] == s[j]);
        }
        assert(!by_id(s.drop_last()).dom().contains(s[i].id@));
        assert(by_id(t) =~= by_id(s).remove(s[i].id@));
    } else {
        assert(t.drop_last() == s.drop_last().remove(i));
        assert(t.last() == s.last());
        assert(s.drop_last()[i] == s[i]);
        lemma_by_id_remove(s.drop_last(), i);
        assert(s.last().id@ != s[i].id@);
        assert(by_id(t) =~= by_id(s).remove(s[i].id@));
    }
}

impl PluginManager {
    /// No two plugins share an id.
    pub closed spec fn wf(&self) -> bool {
        distinct_ids(self.plugins@)
    }

    /// The plugins by id.
    pub closed spec fn registry(&self) -> Map<Seq<char>, PluginInfo> {
        by_id(self.plugins@)
    }

    /// The position of the plugin with this id, if there is one.
    fn find(&self, plugin_id: &str) -> (r: Option<usize>)
        requires
            self.wf(),
        ensures
            match r {
                Some(i) => i < self.plugins@.len() && self.plugins@[i as int].id@ == plugin_id@,
                None => !self.registry().dom().contains(plugin_id@),
            },
    {
        proof {
            lemma_by_id_dom(self.plugins@);
        }
        let mut i: usize = 0;
        while i < self.plugins.len()
            invariant
                i <= self.plugins@.len(),
                forall|j: int| 0 <= j < i ==> (#[trigger] self.plugins@[j]).id@ != plugin_id@,
            decreases self.plugins@.len() - i,
        {
            if str_eq(self.plugins[i].id.as_str(), plugin_id) {
                return Some(i);
            }
            i = i + 1;
        }
        None
    }

    /// The built-in plugins, installed and updated at `now`: every plugin
    /// is on and active except automatic cleaning.
    pub fn default_plugins(now: &str) -> (r: Vec<PluginInfo>)
        ensures
            r@.len() == 9,
            forall|k: int| 0 <= k < 9 ==> is_default_plugin(#[trigger] r@[k], k, now@),
    {
        let mut r: Vec<PluginInfo> = Vec::new();
        r.push(plugin_entry("system-junk", "系统垃圾清理", "清理临时文件、日志、更新缓存、缩略图等系统垃圾", PluginStatus::Active, PluginCategory::System, true, now));
        r.push(plugin_entry("system-redundant", "系统冗余清理", "清理Windows.old、WinSxS冗余、旧还原点等", PluginStatus::Active, PluginCategory::System, true, now));
        r.push(plugin_entry("social-app", "社交软件清理", "清理微信、QQ、企业微信等聊天缓存", PluginStatus::Active, PluginCategory::App, true, now));
        r.push(plugin_entry("browser", "浏览器清理", "清理Chrome、Edge、Firefox等浏览器缓存", PluginStatus::Active, PluginCategory::Browser, true, now));
        r.push(plugin_entry("large-file", "大文件分析", "定位100MB以上大文件，支持智能筛选", PluginStatus::Active, PluginCategory::System, true, now));
        r.push(plugin_entry("duplicate-file", "重复文件清理", "识别重复文件、相似图片，智能推荐删除", PluginStatus::Active, PluginCategory::System, true, now));
        r.push(plugin_entry("ai-migrate", "AI智能迁移", "AI自动识别可迁移文件，无损迁移到其他盘", PluginStatus::Active, PluginCategory::System, true, now));
        r.push(plugin_entry("software-mover", "软件搬家", "无损迁移已安装软件到其他盘，无需重装", PluginStatus::Active, PluginCategory::App, true, now));
        r.push(plugin_entry("auto-clean", "自动清理", "定时自动清理，空间不足时触发紧急清理", PluginStatus::Inactive, PluginCategory::System, false, now));
        r
    }

    /// A registry holding the built-in plugins, installed at `now`.
    pub fn new(now: &str) -> (r: Self)
        ensures
            r.wf(),
            forall|k: int|
                0 <= k < 9 ==> r.registry().dom().contains(#[trigger] default_plugin_spec(k).0)
                    && is_default_plugin(r.registry()[default_plugin_spec(k).0], k, now@),
            forall|id: Seq<char>|
                #[trigger] r.registry().dom().contains(id) ==> exists|k: int|
                    0 <= k < 9 && id == #[trigger] default_plugin_spec(k).0,
    {
        let defaults = Self::default_plugins(now);
        proof {
            reveal_strlit("system-junk");
            reveal_strlit("system-redundant");
            reveal_strlit("social-app");
            reveal_strlit("browser");
            reveal_strlit("large-file");
            reveal_strlit("duplicate-file");
            reveal_strlit("ai-migrate");
            reveal_strlit("software-mover");
            reveal_strlit("auto-clean");
            let ids = Seq::new(9, |k: int| default_plugin_spec(k).0);
            assert(ids[0].len() == 11 && ids[0][0] == 's' && ids[0][1] == 'y');
            assert(ids[1].len() == 16 && ids[1][0] == 's' && ids[1][1] == 'y');
            assert(ids[2].len() == 10 && ids[2][0] == 's' && ids[2][1] == 'o');
            assert(ids[3].len() == 7 && ids[3][0] == 'b' && ids[3][1] == 'r');
            assert(ids[4].len() == 10 && ids[4][0] == 'l' && ids[4][1] == 'a');
            assert(ids[5].len() == 14 && ids[5][0] == 'd' && ids[5][1] == 'u');
            assert(ids[6].len() == 10 && ids[6][0] == 'a' && ids[6][1] == 'i');
            assert(ids[7].len() == 14 && ids[7][0] == 's' && ids[7][1] == 'o');
            assert(ids[8].len() == 10 && ids[8][0] == 'a' && ids[8][1] == 'u');
            assert forall|a: int, b: int| 0 <= a < b < defaults@.len() implies (
            #[trigger] defaults@[a]).id@ != (#[trigger] defaults@[b]).id@ by {
                assert(defaults@[a].id@ == ids[a]);
                assert(defaults@[b].id@ == ids[b]);
                assert(ids[a].len() != ids[b].len() || ids[a][0] != ids[b][0] || ids[a][1]
                    != ids[b][1]);
            }
        }
        let mut m = PluginManager { plugins: Vec::new() };
        let mut i: usize = 0;
        while i < defaults.len()
            invariant
                i <= defaults@.len(),
                m.wf(),
                m.registry() == by_id(defaults@.take(i as int)),
            decreases defaults@.len() - i,
        {
            assert(defaults@.take(i + 1).drop_last() == defaults@.take(i as int));
            let _ = m.register_plugin(defaults[i].clone());
            i = i + 1;
        }
        assert(defaults@.take(defaults@.len() as int) == defaults@);
        proof {
            lemma_by_id_dom(defaults@);
            assert forall|k: int| 0 <= k < 9 implies m.registry().dom().contains(
                #[trigger] default_plugin_spec(k).0,
            ) && is_default_plugin(m.registry()[default_plugin_spec(k).0], k, now@) by {
                lemma_by_id_value(defaults@, k);
                assert(defaults@[k].id@ == default_plugin_spec(k).0);
            }
            assert forall|id: Seq<char>| #[trigger] m.registry().dom().contains(id) implies exists|
                k: int,
            | 0 <= k < 9 && id == #[trigger] default_plugin_spec(k).0 by {
                let k = choose|k: int| 0 <= k < defaults@.len() && (#[trigger] defaults@[k]).id@ == id;
                assert(defaults@[k].id@ == default_plugin_spec(k).0);
            }
        }
        m
    }

    /// Every plugin, once each, in no promised order.
    pub fn list_plugins(&self) -> (r: Vec<PluginInfo>)
        requires
            self.wf(),
        ensures
            distinct_ids(r@),
            by_id(r@) == self.registry(),
    {
        let mut r: Vec<PluginInfo> = Vec::new();
        let mut i: usize = 0;
        while i < self.plugins.len()
            invariant
                i <= self.plugins@.len(),
                r@ == self.plugins@.take(i as int),
            decreases self.plugins@.len() - i,
        {
            r.push(self.plugins[i].clone());
            i = i + 1;
            assert(r@ =~= self.plugins@.take(i as int));
        }
        assert(r@ =~= self.plugins@);
        r
    }

    /// Turns a plugin on and marks it active; an error when no plugin has
    /// the id.
    pub fn enable_plugin(&mut self, plugin_id: &str) -> (r: Result<(), AppError>)
        requires
            old(self).wf(),
        ensures
            final(self).wf(),
            old(self).registry().dom().contains(plugin_id@) ==> r is Ok && final(self).registry()
                == old(self).registry().insert(
                plugin_id@,
                switched(old(self).registry()[plugin_id@], true),
            ),
            !old(self).registry().dom().contains(plugin_id@) ==> (r matches Err(
                AppError::PluginError(m),
            ) && m@ == "插件不存在: "@ + plugin_id@) && final(self).registry() == old(
                self,
            ).registry(),
    {
        self.switch(plugin_id, true)
    }

    /// Turns a plugin off and marks it inactive; an error when no plugin has
    /// the id.
    pub fn disable_plugin(&mut self, plugin_id: &str) -> (r: Result<(), AppError>)
        requires
            old(self).wf(),
        ensures
            final(self).wf(),
            old(self).registry().dom().contains(plugin_id@) ==> r is Ok && final(self).registry()
                == old(self).registry().insert(
                plugin_id@,
                switched(old(self).registry()[plugin_id@], false),
            ),
            !old(self).registry().dom().contains(plugin_id@) ==> (r matches Err(
                AppError::PluginError(m),
            ) && m@ == "插件不存在: "@ + plugin_id@) && final(self).registry() == old(
                self,
            ).registry(),
    {
        self.switch(plugin_id, false)
    }

    /// Turns a plugin on or off.
    fn switch(&mut self, plugin_id: &str, on: bool) -> (r: Result<(), AppError>)
        requires
            old(self).wf(),
        ensures
            final(self).wf(),
            old(self).registry().dom().contains(plugin_id@) ==> r is Ok && final(self).registry()
                == old(self).registry().insert(
                plugin_id@,
                switched(old(self).registry()[plugin_id@], on),
            ),
            !old(self).registry().dom().contains(plugin_id@) ==> (r matches Err(
                AppError::PluginError(m),
            ) && m@ == "插件不存在: "@ + plugin_id@) && final(self).registry() == old(
                self,
            ).registry(),
    {
        match self.find(plugin_id) {
            None => Err(missing_plugin(plugin_id)),
            Some(i) => {
                let ghost before = self.plugins@;
                let mut p = self.plugins[i].clone();
                p.enabled = on;
                p.status = if on {
                    PluginStatus::Active
                } else {
                    PluginStatus::Inactive
                };
                proof {
                    lemma_by_id_value(before, i as int);
                    lemma_by_id_update(before, i as int, p);
                    assert(p == switched(before[i as int], on));
                }
                self.plugins.set(i, p);
                Ok(())
            },
        }
    }

    /// Adds a plugin, replacing any plugin with the same id.
    pub fn register_plugin(&mut self, info: PluginInfo) -> (r: Result<(), AppError>)
        requires
            old(self).wf(),
        ensures
            r is Ok,
            final(self).wf(),
            final(self).registry() == old(self).registry().insert(info.id@, info),
    {
        match self.find(info.id.as_str()) {
            Some(i) => {
                proof {
                    lemma_by_id_update(self.plugins@, i as int, info);
                }
                self.plugins.set(i, info);
            },
            None => {
                let ghost before = self.plugins@;
                proof {
                    lemma_by_id_dom(before);
                    assert forall|j: int| 0 <= j < before.len() implies (#[trigger] before[j]).id@
                        != info.id@ by {
                        assert(by_id(before).dom().contains(before[j].id@));
                    }
                }
                self.plugins.push(info);
                proof {
                    assert(self.plugins@.drop_last() == before);
                }
            },
        }
        Ok(())
    }

    /// Removes a plugin; an error when no plugin has the id.
    pub fn unregister_plugin(&mut self, plugin_id: &str) -> (r: Result<(), AppError>)
        requires
            old(self).wf(),
        ensures
            final(self).wf(),
            old(self).registry().dom().contains(plugin_id@) ==> r is Ok && final(self).registry()
                == old(self).registry().remove(plugin_id@),
            !old(self).registry().dom().contains(plugin_id@) ==> (r matches Err(
                AppError::PluginError(m),
            ) && m@ == "插件不存在: "@ + plugin_id@) && final(self).registry() == old(
                self,
            ).registry(),
    {
        match self.find(plugin_id) {
            None => Err(missing_plugin(plugin_id)),
            Some(i) => {
                proof {
                    lemma_by_id_value(self.plugins@, i as int);
                    lemma_by_id_remove(self.plugins@, i as int);
                }
                self.plugins.remove(i);
                Ok(())
            },
        }
    }
}

/// Registering a plugin under a new id and then unregistering that id
/// gives back the registry as it was.
pub proof fn lemma_register_then_unregister(m: Map<Seq<char>, PluginInfo>, info: PluginInfo)
    requires
        !m.dom().contains(info.id@),
    ensures
        m.insert(info.id@, info).remove(info.id@) == m,
{
    assert(m.insert(info.id@, info).remove(info.id@) =~= m);
}

/// Turning a plugin on or off depends only on the last switch: switching
/// twice is switching once to the second setting.
pub proof fn lemma_last_switch_wins(p: PluginInfo, first: bool, second: bool)
    ensures
        switched(switched(p, first), second) == switched(p, second),
{
}

} // verus!
