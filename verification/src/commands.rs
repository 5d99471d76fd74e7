//! The decisions behind the user's requests: which scan a mode names,
//! which page of the audit log is read, what a whitelist request asks for,
//! and when a migration request is refused.
use vstd::prelude::*;

use crate::error::AppError;
use crate::models::scan::ScanMode;
use crate::text::{concat, owned, str_eq};

verus! {

/// What a whitelist request asks for.
#[derive(Debug)]
pub enum WhitelistAction {
    /// Add this path, for this reason.
    Add { path: String, reason: String },
    /// Remove this path.
    Remove { path: String },
}

/// The scan a mode names: `"deep"` a deep scan, anything else a quick one.
pub fn scan_mode_of(mode: &str) -> (r: ScanMode)
    ensures
        mode@ == "deep"@ ==> r is Deep,
        mode@ != "deep"@ ==> r is Quick,
{
    proof {
        reveal_strlit("quick");
        reveal_strlit("deep");
        assert("quick"@.len() != "deep"@.len());
    }
    if str_eq(mode, "quick") {
        ScanMode::Quick
    } else if str_eq(mode, "deep") {
        ScanMode::Deep
    } else {
        ScanMode::Quick
    }
}

/// The page of the audit log a request reads: at most 500 entries, 100
/// when no limit is given, from offset 0 when none is given.
pub fn audit_page(limit: Option<usize>, offset: Option<usize>) -> (r: (usize, usize))
    ensures
        r.0 == (match limit {
            Some(l) => if l < 500 {
                l
            } else {
                500
            },
            None => 100,
        }),
        r.1 == (match offset {
            Some(o) => o,
            None => 0,
        }),
{
    let l = match limit {
        Some(l) => l,
        None => 100,
    };
    let l = if l < 500 {
        l
    } else {
        500
    };
    let o = match offset {
        Some(o) => o,
        None => 0,
    };
    (l, o)
}

/// What a whitelist request asks for: `"add"` a path (for the given
/// reason, or as added by hand), `"remove"` a path; a path is needed, and
/// any other action is refused.
pub fn whitelist_request(action: &str, path: Option<String>, reason: Option<String>) -> (r: Result<
    WhitelistAction,
    AppError,
>)
    ensures
        action@ == "add"@ ==> match path {
            Some(p) => r matches Ok(WhitelistAction::Add { path: q, reason: why }) && q == p
                && why@ == (match reason {
                Some(x) => x@,
                None => "用户手动添加"@,
            }),
            None => r matches Err(AppError::ConfigError(m)) && m@ == "路径不能为空"@,
        },
        action@ == "remove"@ ==> match path {
            Some(p) => r matches Ok(WhitelistAction::Remove { path: q }) && q == p,
            None => r matches Err(AppError::ConfigError(m)) && m@ == "路径不能为空"@,
        },
        action@ != "add"@ && action@ != "remove"@ ==> (r matches Err(AppError::ConfigError(m))
            && m@ == "未知操作: "@ + action@),
{
    proof {
        reveal_strlit("add");
        reveal_strlit("remove");
        assert("add"@.len() != "remove"@.len());
    }
    if str_eq(action, "add") {
        match path {
            Some(p) => {
                let why = match reason {
                    Some(x) => x,
                    None => owned("用户手动添加"),
                };
                Ok(WhitelistAction::Add { path: p, reason: why })
            },
            None => Err(AppError::ConfigError(owned("路径不能为空"))),
        }
    } else if str_eq(action, "remove") {
        match path {
            Some(p) => Ok(WhitelistAction::Remove { path: p }),
            None => Err(AppError::ConfigError(owned("路径不能为空"))),
        }
    } else {
        Err(AppError::ConfigError(concat("未知操作: ", action)))
    }
}

/// A migration analysis: refused without a program name; nothing is
/// suggested yet.
pub fn migrate_analyze(software_name: &str) -> (r: Result<Vec<String>, AppError>)
    ensures
        software_name@.len() == 0 ==> (r matches Err(AppError::MigrateError(m)) && m@
            == "软件名称不能为空"@),
        software_name@.len() > 0 ==> (r matches Ok(v) && v@.len() == 0),
{
    if software_name.is_empty() {
        return Err(AppError::MigrateError(owned("软件名称不能为空")));
    }
    Ok(Vec::new())
}

/// A migration: refused without a program name or a target folder.
pub fn migrate_execute(software_name: &str, target_path: &str) -> (r: Result<(), AppError>)
    ensures
        software_name@.len() == 0 ==> (r matches Err(AppError::MigrateError(m)) && m@
            == "软件名称不能为空"@),
        software_name@.len() > 0 && target_path@.len() == 0 ==> (r matches Err(
            AppError::MigrateError(m),
        ) && m@ == "目标路径不能为空"@),
        software_name@.len() > 0 && target_path@.len() > 0 ==> r is Ok,
{
    if software_name.is_empty() {
        return Err(AppError::MigrateError(owned("软件名称不能为空")));
    }
    if target_path.is_empty() {
        return Err(AppError::MigrateError(owned("目标路径不能为空")));
    }
    Ok(())
}

/// The answer to a progress request for a migration: no such task.
pub fn migrate_progress(task_id: &str) -> (r: AppError)
    ensures
        r matches AppError::MigrateError(m) && m@ == "迁移任务不存在: "@ + task_id@,
{
    AppError::MigrateError(concat("迁移任务不存在: ", task_id))
}

/// The used space of a drive: its size less its free space, never below 0.
pub fn used_space(total_size: u64, available_space: u64) -> (r: u64)
    ensures
        r == if total_size >= available_space {
            (total_size - available_space) as u64
        } else {
            0u64
        },
{
    total_size.saturating_sub(available_space)
}

} // verus!
