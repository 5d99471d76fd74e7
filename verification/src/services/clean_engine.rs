//! The decisions of a clean-up: what the preview warns about, when a run may
//! start or be cancelled, how each task's outcome is reported, and the
//! restore points that make a clean-up reversible.
use vstd::prelude::*;

use crate::error::{error_detail, error_label, AppError};
use crate::models::clean::{CleanError, CleanResult, CleanTask, RestorePoint};
use crate::services::safety_guard::SafetyGuard;
use crate::text::{concat, concat3, decimal, decimal_string, owned};

verus! {

/// How many risk warnings a preview lists before folding the rest.
pub const MAX_PREVIEW_WARNINGS: usize = 50;

/// What a clean-up would free and what it should warn about.
#[derive(Debug, Clone)]
pub struct CleanPreview {
    pub total_size: u64,
    pub total_files: u64,
    pub task_count: usize,
    pub warnings: Vec<String>,
    pub estimated_time_ms: u64,
}

/// What emptying a directory achieved.
#[derive(Debug, Clone)]
pub struct RemoveDirStats {
    pub cleaned: u64,
    pub failed: u64,
    pub freed: u64,
    pub errors: Vec<CleanError>,
}

/// What was found at a task's target when it was about to be cleaned.
#[derive(Debug)]
pub enum TargetOutcome {
    /// The target does not exist.
    Missing,
    /// Its metadata could not be read; the text says why.
    MetadataUnreadable(String),
    /// It is a directory, and emptying it gave these figures.
    Directory(RemoveDirStats),
    /// It is a file of this size, and removing it succeeded or failed with
    /// the given text.
    File { size: u64, removal: Result<(), String> },
}

/// The state of the clean-up engine between and during runs.
#[derive(Debug, Clone)]
pub struct CleanEngine {
    is_cleaning: bool,
    cancel_requested: bool,
    safety_guard: SafetyGuard,
    restore_points: Vec<RestorePoint>,
}

/// Total size of the tasks.
pub open spec fn total_task_size(tasks: Seq<CleanTask>) -> nat
    decreases tasks.len(),
{
    if tasks.len() == 0 {
        0
    } else {
        total_task_size(tasks.drop_last()) + tasks.last().size as nat
    }
}

/// Total file count of the tasks.
pub open spec fn total_task_files(tasks: Seq<CleanTask>) -> nat
    decreases tasks.len(),
{
    if tasks.len() == 0 {
        0
    } else {
        total_task_files(tasks.drop_last()) + tasks.last().file_count as nat
    }
}

/// Total space freed by the results.
pub open spec fn total_freed(results: Seq<CleanResult>) -> nat
    decreases results.len(),
{
    if results.len() == 0 {
        0
    } else {
        total_freed(results.drop_last()) + results.last().freed_space as nat
    }
}

/// The warning for a task the guard does not pass.
pub open spec fn task_warning(name: Seq<char>, reason: Seq<char>) -> Seq<char> {
    "「"@ + name + "」: "@ + reason
}

/// The closing note when `n` warnings were folded away.
pub open spec fn folded_note(n: nat) -> Seq<char> {
    "还有 "@ + decimal(n) + " 条风险提示已折叠，请谨慎确认。"@
}

/// The index of the first restore point with this id.
pub open spec fn find_restore_point(points: Seq<RestorePoint>, id: Seq<char>) -> Option<int>
    decreases points.len(),
{
    if points.len() == 0 {
        None
    } else {
        match find_restore_point(points.drop_last(), id) {
            Some(i) => Some(i),
            None => if points.last().id@ == id {
                Some(points.len() - 1)
            } else {
                None
            },
        }
    }
}

/// The texts joined with a separator.
pub open spec fn joined(parts: Seq<Seq<char>>, sep: Seq<char>) -> Seq<char>
    decreases parts.len(),
{
    if parts.len() == 0 {
        Seq::empty()
    } else if parts.len() == 1 {
        parts[0]
    } else {
        joined(parts.drop_last(), sep) + sep + parts.last()
    }
}

/// The description of a restore point made for `n` tasks.
pub open spec fn restore_description(n: nat) -> Seq<char> {
    "清理前备份 - "@ + decimal(n) + " 个任务"@
}

/// The view of a clean error.
pub open spec fn clean_error_view(e: CleanError) -> (Seq<char>, Seq<char>, Seq<char>) {
    (e.file_path@, e.error_code@, e.message@)
}

impl CleanEngine {
    /// Whether a run is in progress.
    pub closed spec fn cleaning(&self) -> bool {
        self.is_cleaning
    }

    /// Whether the current or last run was asked to stop.
    pub closed spec fn cancelled(&self) -> bool {
        self.cancel_requested
    }

    /// The restore points, oldest first.
    pub closed spec fn points(&self) -> Seq<RestorePoint> {
        self.restore_points@
    }

    /// The guard the engine consults.
    pub closed spec fn guard(&self) -> SafetyGuard {
        self.safety_guard
    }

    /// An idle engine with no restore points, guarding the profile
    /// directory `user_profile`.
    pub fn new(user_profile: &str) -> (r: Self)
        ensures
            !r.cleaning(),
            !r.cancelled(),
            r.points().len() == 0,
            r.guard().protected_dirs_view()
                == crate::services::safety_guard::default_protected_dirs(),
            r.guard().privacy_dirs_view() == crate::services::safety_guard::default_privacy_dirs(
                user_profile@,
            ),
            r.guard().protected_extensions_view()
                == crate::services::safety_guard::default_protected_extensions(),
            r.guard().safe_cleanup_dirs_view()
                == crate::services::safety_guard::default_safe_cleanup_dirs(),
    {
        CleanEngine {
            is_cleaning: false,
            cancel_requested: false,
            safety_guard: SafetyGuard::new(user_profile),
            restore_points: Vec::new(),
        }
    }

    /// The tasks that the guard does not pass, in order.
    pub open spec fn flagged(&self, tasks: Seq<CleanTask>) -> Seq<CleanTask> {
        tasks.filter(|t: CleanTask| !self.guard().verdict(t.target_path@).0)
    }

    /// What cleaning the tasks would free and take, with a warning for each
    /// of the first fifty tasks the guard does not pass and a note counting
    /// the rest.
    pub fn preview(&self, tasks: &[CleanTask]) -> (r: Result<CleanPreview, AppError>)
        requires
            total_task_size(tasks@) <= u64::MAX,
            total_task_files(tasks@) * 10 <= u64::MAX,
        ensures
            r is Ok,
            r matches Ok(p) && {
                let flagged = self.flagged(tasks@);
                let shown = if flagged.len() < 50 {
                    flagged.len()
                } else {
                    50
                };
                &&& p.total_size == total_task_size(tasks@)
                &&& p.total_files == total_task_files(tasks@)
                &&& p.task_count == tasks@.len()
                &&& p.estimated_time_ms == total_task_files(tasks@) * 10
                &&& p.warnings@.len() == shown + (if flagged.len() > 50 {
                    1int
                } else {
                    0
                })
                &&& forall|k: int|
                    0 <= k < shown ==> #[trigger] p.warnings@[k]@ == task_warning(
                        flagged[k].target_name@,
                        self.guard().verdict(flagged[k].target_path@).2,
                    )
                &&& flagged.len() > 50 ==> p.warnings@[50]@ == folded_note(
                    (flagged.len() - 50) as nat,
                )
            },
    {
        let mut total_size: u64 = 0;
        let mut total_files: u64 = 0;
        let mut warnings: Vec<String> = Vec::new();
        let mut hidden: usize = 0;
        let mut i: usize = 0;
        while i < tasks.len()
            invariant
                i <= tasks@.len(),
                total_task_size(tasks@) <= u64::MAX,
                total_task_files(tasks@) * 10 <= u64::MAX,
                total_size == total_task_size(tasks@.take(i as int)),
                total_files == total_task_files(tasks@.take(i as int)),
                ({
                    let f = self.flagged(tasks@.take(i as int));
                    &&& warnings@.len() == (if f.len() < 50 {
                        f.len()
                    } else {
                        50
                    })
                    &&& hidden == (if f.len() < 50 {
                        0
                    } else {
                        f.len() - 50
                    })
                    &&& forall|k: int|
                        0 <= k < warnings@.len() ==> #[trigger] warnings@[k]@ == task_warning(
                            f[k].target_name@,
                            self.guard().verdict(f[k].target_path@).2,
                        )
                }),
            decreases tasks@.len() - i,
        {
            reveal_with_fuel(Seq::<_>::filter, 1);
            let ghost before = tasks@.take(i as int);
            let ghost after = tasks@.take(i + 1);
            assert(after.drop_last() == before);
            proof {
                lemma_totals_monotone(tasks@, i as int + 1);
            }
            let safety = self.safety_guard.check_path_safety(tasks[i].target_path.as_str());
            if !safety.is_safe {
                if warnings.len() < MAX_PREVIEW_WARNINGS {
                    warnings.push(
                        concat3(
                            "「",
                            tasks[i].target_name.as_str(),
                            concat("」: ", safety.reason.as_str()).as_str(),
                        ),
                    );
                } else {
                    hidden = hidden + 1;
                }
            }
            total_size = total_size + tasks[i].size;
            total_files = total_files + tasks[i].file_count;
            i = i + 1;
        }
        assert(tasks@.take(tasks@.len() as int) == tasks@);
        if hidden > 0 {
            let n = decimal_string(hidden as u64);
            warnings.push(concat3("还有 ", n.as_str(), " 条风险提示已折叠，请谨慎确认。"));
        }
        Ok(
            CleanPreview {
                total_size,
                total_files,
                task_count: tasks.len(),
                warnings,
                estimated_time_ms: total_files * 10,
            },
        )
    }

    /// Begins a run of `task_count` tasks: an empty list and a run already in
    /// progress are refused; otherwise the engine is cleaning and no longer
    /// cancelled.
    pub fn begin_execute(&mut self, task_count: usize) -> (r: Result<(), AppError>)
        ensures
            task_count == 0 ==> (r matches Err(AppError::CleanError(m)) && m@
                == "清理任务列表不能为空"@),
            task_count > 0 && old(self).cleaning() ==> (r matches Err(AppError::CleanError(m))
                && m@ == "清理任务正在进行中"@),
            r is Err ==> *final(self) == *old(self),
            task_count > 0 && !old(self).cleaning() ==> r is Ok,
            r is Ok ==> final(self).cleaning() && !final(self).cancelled() && final(self).points()
                == old(self).points() && final(self).guard() == old(self).guard(),
    {
        if task_count == 0 {
            return Err(AppError::CleanError(owned("清理任务列表不能为空")));
        }
        if self.is_cleaning {
            return Err(AppError::CleanError(owned("清理任务正在进行中")));
        }
        self.is_cleaning = true;
        self.cancel_requested = false;
        Ok(())
    }

    /// Ends a run: records a restore point for the tasks, with the space the
    /// results freed, and leaves the engine idle.
    pub fn finish_execute(
        &mut self,
        restore_id: String,
        created_at: String,
        tasks: Vec<CleanTask>,
        results: &[CleanResult],
    )
        requires
            total_freed(results@) <= u64::MAX,
        ensures
            final(self).points().len() == old(self).points().len() + 1,
            final(self).points().drop_last() == old(self).points(),
            final(self).points().last().id@ == restore_id@,
            final(self).points().last().created_at@ == created_at@,
            final(self).points().last().tasks@ == tasks@,
            final(self).points().last().total_size == total_freed(results@),
            final(self).points().last().description@ == restore_description(tasks@.len()),
            !final(self).cleaning(),
            final(self).cancelled() == old(self).cancelled(),
            final(self).guard() == old(self).guard(),
    {
        let mut total: u64 = 0;
        let mut i: usize = 0;
        while i < results.len()
            invariant
                i <= results@.len(),
                total_freed(results@) <= u64::MAX,
                total == total_freed(results@.take(i as int)),
            decreases results@.len() - i,
        {
            assert(results@.take(i + 1).drop_last() == results@.take(i as int));
            proof {
                lemma_freed_monotone(results@, i as int + 1);
            }
            total = total + results[i].freed_space;
            i = i + 1;
        }
        assert(results@.take(results@.len() as int) == results@);
        let n = decimal_string(tasks.len() as u64);
        let point = RestorePoint {
            id: restore_id,
            created_at,
            tasks,
            total_size: total,
            description: concat3("清理前备份 - ", n.as_str(), " 个任务"),
        };
        self.restore_points.push(point);
        self.is_cleaning = false;
        assert(self.restore_points@.drop_last() == old(self).restore_points@);
    }

    /// Asks the running clean-up to stop: refused when none is running;
    /// otherwise the engine is cancelled and idle.
    pub fn cancel(&mut self) -> (r: Result<(), AppError>)
        ensures
            !old(self).cleaning() ==> (r matches Err(AppError::CleanError(m)) && m@
                == "没有正在进行的清理任务"@) && *final(self) == *old(self),
            old(self).cleaning() ==> r is Ok && final(self).cancelled() && !final(self).cleaning()
                && final(self).points() == old(self).points() && final(self).guard() == old(
                self,
            ).guard(),
    {
        if !self.is_cleaning {
            return Err(AppError::CleanError(owned("没有正在进行的清理任务")));
        }
        self.cancel_requested = true;
        self.is_cleaning = false;
        Ok(())
    }

    /// Whether a run is in progress.
    pub fn is_cleaning(&self) -> (r: bool)
        ensures
            r == self.cleaning(),
    {
        self.is_cleaning
    }

    /// Whether the run was asked to stop.
    pub fn is_cancelled(&self) -> (r: bool)
        ensures
            r == self.cancelled(),
    {
        self.cancel_requested
    }

    /// The restore points, oldest first.
    pub fn get_restore_points(&self) -> (r: &[RestorePoint])
        ensures
            r@ == self.points(),
    {
        self.restore_points.as_slice()
    }

    /// The tasks recorded under a restore point, for putting their targets
    /// back; an unknown id is a clean-up error.
    pub fn restore_tasks(&self, restore_id: &str) -> (r: Result<Vec<CleanTask>, AppError>)
        ensures
            match find_restore_point(self.points(), restore_id@) {
                Some(i) => r matches Ok(v) && v@ == self.points()[i].tasks@,
                None => r matches Err(AppError::CleanError(m)) && m@ == "还原点不存在: "@
                    + restore_id@,
            },
    {
        let mut i: usize = 0;
        while i < self.restore_points.len()
            invariant
                i <= self.restore_points@.len(),
                find_restore_point(self.restore_points@.take(i as int), restore_id@) is None,
            decreases self.restore_points@.len() - i,
        {
            let ghost pre = self.restore_points@.take(i as int);
            assert(self.restore_points@.take(i + 1).drop_last() == pre);
            if crate::text::str_eq(self.restore_points[i].id.as_str(), restore_id) {
                proof {
                    lemma_find_prefix(self.restore_points@, i as int);
                }
                return Ok(clone_tasks(&self.restore_points[i].tasks));
            }
            i = i + 1;
        }
        assert(self.restore_points@.take(self.restore_points@.len() as int)
            == self.restore_points@);
        Err(AppError::CleanError(concat("还原点不存在: ", restore_id)))
    }

    /// The verdict of the guard on a task before it is touched: `Some` with a
    /// failed result when the guard stops it, `None` when it may go ahead.
    pub fn guard_task(&self, task: &CleanTask, elapsed_ms: u64) -> (r: Option<CleanResult>)
        ensures
            self.guard().verdict(task.target_path@).0 <==> r is None,
            r matches Some(res) ==> {
                &&& res.task_id@ == task.id@
                &&& !res.success
                &&& res.freed_space == 0
                &&& res.cleaned_files == 0
                &&& res.failed_files == task.file_count
                &&& res.backup_path@.len() == 0
                &&& res.elapsed_time_ms == elapsed_ms
                &&& res.errors@.len() == 1
                &&& clean_error_view(res.errors@[0]) == (
                    task.target_path@,
                    "PROTECTED_BY_SAFETY_GUARD"@,
                    "防护拦截: "@ + self.guard().verdict(task.target_path@).2,
                )
            },
    {
        let safety = self.safety_guard.check_path_safety(task.target_path.as_str());
        if safety.is_safe {
            return None;
        }
        Some(
            CleanResult {
                task_id: task.id.clone(),
                success: false,
                freed_space: 0,
                cleaned_files: 0,
                failed_files: task.file_count,
                backup_path: String::new(),
                elapsed_time_ms: elapsed_ms,
                errors: vec![
                    CleanError {
                        file_path: task.target_path.clone(),
                        error_code: owned("PROTECTED_BY_SAFETY_GUARD"),
                        message: concat("防护拦截: ", safety.reason.as_str()),
                    },
                ],
            },
        )
    }
}

/// The result of cleaning a task the guard let through, from what was found
/// at its target: a missing target is a success that freed nothing,
/// unreadable metadata is a file-system error, a directory reports the
/// figures of emptying it, and a file reports its removal.
pub fn settle_task(task: &CleanTask, outcome: TargetOutcome, elapsed_ms: u64) -> (r: Result<
    CleanResult,
    AppError,
>)
    ensures
        match outcome {
            TargetOutcome::Missing => r matches Ok(res) && res.task_id@ == task.id@ && res.success
                && res.freed_space == 0 && res.cleaned_files == 0 && res.failed_files == 0
                && res.errors@.len() == 0 && res.backup_path@.len() == 0 && res.elapsed_time_ms
                == elapsed_ms,
            TargetOutcome::MetadataUnreadable(why) => r matches Err(AppError::FileSystemError(m))
                && m@ == "获取文件元数据失败: "@ + task.target_path@ + " - "@ + why@,
            TargetOutcome::Directory(stats) => r matches Ok(res) && res.task_id@ == task.id@
                && res.success == (stats.failed == 0) && res.freed_space == stats.freed
                && res.cleaned_files == stats.cleaned && res.failed_files == stats.failed
                && res.errors@ == stats.errors@ && res.backup_path@.len() == 0
                && res.elapsed_time_ms == elapsed_ms,
            TargetOutcome::File { size, removal } => r matches Ok(res) && res.task_id@ == task.id@
                && res.backup_path@.len() == 0 && res.elapsed_time_ms == elapsed_ms && match removal {
                Ok(_) => res.success && res.freed_space == size && res.cleaned_files == 1
                    && res.failed_files == 0 && res.errors@.len() == 0,
                Err(why) => !res.success && res.freed_space == 0 && res.cleaned_files == 0
                    && res.failed_files == 1 && res.errors@.len() == 1 && clean_error_view(
                    res.errors@[0],
                ) == (task.target_path@, "DELETE_FAILED"@, why@),
            },
        },
{
    match outcome {
        TargetOutcome::Missing => Ok(
            CleanResult {
                task_id: task.id.clone(),
                success: true,
                freed_space: 0,
                cleaned_files: 0,
                failed_files: 0,
                backup_path: String::new(),
                elapsed_time_ms: elapsed_ms,
                errors: Vec::new(),
            },
        ),
        TargetOutcome::MetadataUnreadable(why) => Err(
            AppError::FileSystemError(
                concat3("获取文件元数据失败: ", task.target_path.as_str(), concat(" - ", why.as_str()).as_str()),
            ),
        ),
        TargetOutcome::Directory(stats) => Ok(
            CleanResult {
                task_id: task.id.clone(),
                success: stats.failed == 0,
                freed_space: stats.freed,
                cleaned_files: stats.cleaned,
                failed_files: stats.failed,
                backup_path: String::new(),
                elapsed_time_ms: elapsed_ms,
                errors: stats.errors,
            },
        ),
        TargetOutcome::File { size, removal } => match removal {
            Ok(_) => Ok(
                CleanResult {
                    task_id: task.id.clone(),
                    success: true,
                    freed_space: size,
                    cleaned_files: 1,
                    failed_files: 0,
                    backup_path: String::new(),
                    elapsed_time_ms: elapsed_ms,
                    errors: Vec::new(),
                },
            ),
            Err(why) => Ok(
                CleanResult {
                    task_id: task.id.clone(),
                    success: false,
                    freed_space: 0,
                    cleaned_files: 0,
                    failed_files: 1,
                    backup_path: String::new(),
                    elapsed_time_ms: elapsed_ms,
                    errors: vec![
                        CleanError {
                            file_path: task.target_path.clone(),
                            error_code: owned("DELETE_FAILED"),
                            message: why,
                        },
                    ],
                },
            ),
        },
    }
}

/// The result recorded for a task in a run: a completed task keeps its
/// result and, when the task asked for a backup, names the backup
/// directory; a task that failed with an error becomes a failed result
/// carrying the error's message.
pub fn record_task_outcome(
    task: &CleanTask,
    outcome: Result<CleanResult, AppError>,
    task_backup_dir: &str,
    elapsed_ms: u64,
) -> (r: CleanResult)
    ensures
        match outcome {
            Ok(res) => r.task_id == res.task_id && r.success == res.success && r.freed_space
                == res.freed_space && r.cleaned_files == res.cleaned_files && r.failed_files
                == res.failed_files && r.elapsed_time_ms == res.elapsed_time_ms && r.errors@
                == res.errors@ && r.backup_path@ == (if task.backup_required {
                task_backup_dir@
            } else {
                res.backup_path@
            }),
            Err(e) => r.task_id@ == task.id@ && !r.success && r.freed_space == 0 && r.cleaned_files
                == 0 && r.failed_files == task.file_count && r.backup_path@ == (
            if task.backup_required {
                task_backup_dir@
            } else {
                Seq::empty()
            }) && r.elapsed_time_ms == elapsed_ms && r.errors@.len() == 1 && clean_error_view(
                r.errors@[0],
            ) == (task.target_path@, "CLEAN_FAILED"@, error_label(e) + error_detail(e)),
        },
{
    match outcome {
        Ok(mut res) => {
            if task.backup_required {
                res.backup_path = owned(task_backup_dir);
            }
            res
        },
        Err(e) => CleanResult {
            task_id: task.id.clone(),
            success: false,
            freed_space: 0,
            cleaned_files: 0,
            failed_files: task.file_count,
            backup_path: if task.backup_required {
                owned(task_backup_dir)
            } else {
                String::new()
            },
            elapsed_time_ms: elapsed_ms,
            errors: vec![
                CleanError {
                    file_path: task.target_path.clone(),
                    error_code: owned("CLEAN_FAILED"),
                    message: e.message(),
                },
            ],
        },
    }
}

/// The outcome of restoring: success when every target came back, otherwise
/// a clean-up error listing the failures separated by `"; "`.
pub fn restore_outcome(errors: &[String]) -> (r: Result<(), AppError>)
    ensures
        errors@.len() == 0 ==> r is Ok,
        errors@.len() > 0 ==> (r matches Err(AppError::CleanError(m)) && m@ == "部分文件恢复失败: "@
            + joined(errors@.map_values(|s: String| s@), "; "@)),
{
    if errors.len() == 0 {
        return Ok(());
    }
    let mut text = errors[0].clone();
    let ghost parts = errors@.map_values(|s: String| s@);
    assert(joined(parts.take(1), "; "@) == parts[0]);
    let mut i: usize = 1;
    while i < errors.len()
        invariant
            1 <= i <= errors@.len(),
            parts == errors@.map_values(|s: String| s@),
            text@ == joined(parts.take(i as int), "; "@),
        decreases errors@.len() - i,
    {
        assert(parts.take(i + 1).drop_last() == parts.take(i as int));
        text.append("; ");
        text.append(errors[i].as_str());
        i = i + 1;
    }
    assert(parts.take(errors@.len() as int) == parts);
    Err(AppError::CleanError(concat("部分文件恢复失败: ", text.as_str())))
}

/// What a task's backup decides. A task that needs no backup, or whose
/// backup succeeded, goes ahead (`None`). A task whose required backup
/// failed is not cleaned: its target is left in place and it is reported
/// as failed, with the backup's error, so that a clean-up never removes
/// what it could not restore.
pub fn after_backup(task: &CleanTask, outcome: Result<(), String>, elapsed_ms: u64) -> (r: Option<
    CleanResult,
>)
    ensures
        (!task.backup_required || outcome is Ok) <==> r is None,
        r matches Some(res) ==> {
            &&& outcome matches Err(e) && clean_error_view(res.errors@[0]) == (
                task.target_path@,
                "BACKUP_FAILED"@,
                "备份失败: "@ + e@,
            )
            &&& res.errors@.len() == 1
            &&& res.task_id@ == task.id@
            &&& !res.success
            &&& res.freed_space == 0
            &&& res.cleaned_files == 0
            &&& res.failed_files == task.file_count
            &&& res.backup_path@.len() == 0
            &&& res.elapsed_time_ms == elapsed_ms
        },
{
    if !task.backup_required {
        return None;
    }
    match outcome {
        Ok(()) => None,
        Err(e) => Some(
            CleanResult {
                task_id: task.id.clone(),
                success: false,
                freed_space: 0,
                cleaned_files: 0,
                failed_files: task.file_count,
                backup_path: String::new(),
                elapsed_time_ms: elapsed_ms,
                errors: vec![
                    CleanError {
                        file_path: task.target_path.clone(),
                        error_code: owned("BACKUP_FAILED"),
                        message: concat("备份失败: ", e.as_str()),
                    },
                ],
            },
        ),
    }
}

/// Whether a backup last modified at `modified_secs` (seconds since 1970)
/// is older than `days` days before `now` (seconds since 1970 on the local
/// clock, read as UTC) and so is removed: chrono must have a time at those
/// seconds, read as a signed number, and it must fall before the cut-off.
pub fn backup_expired(modified_secs: u64, now: i64, days: u32) -> (r: bool)
    ensures
        r == (crate::services::file_walker::utc_in_range((modified_secs as i64) as int) && ((
        modified_secs as i64) as int) < crate::utils::file_utils::cutoff_secs(
            now as int,
            days as nat,
        )),
{
    let m = modified_secs as i64;
    let cutoff: i128 = (now as i128) - (days as i128) * 86400;
    crate::services::file_walker::utc_time_exists(m) && (m as i128) < cutoff
}

impl RemoveDirStats {
    /// Every failure counted has its error recorded, and no more.
    pub open spec fn tallied(&self) -> bool {
        self.errors@.len() == self.failed
    }

    /// Nothing removed, nothing failed.
    pub fn new() -> (r: Self)
        ensures
            r.cleaned == 0 && r.failed == 0 && r.freed == 0 && r.errors@.len() == 0,
            r.tallied(),
    {
        RemoveDirStats { cleaned: 0, failed: 0, freed: 0, errors: Vec::new() }
    }

    /// Counts a removed file of `size` bytes.
    pub fn record_removed(&mut self, size: u64)
        requires
            old(self).cleaned < u64::MAX,
            old(self).freed + size <= u64::MAX,
        ensures
            final(self).cleaned == old(self).cleaned + 1,
            final(self).freed == old(self).freed + size,
            final(self).failed == old(self).failed,
            final(self).errors@ == old(self).errors@,
            old(self).tallied() ==> final(self).tallied(),
    {
        self.cleaned = self.cleaned + 1;
        self.freed = self.freed + size;
    }

    /// Counts an entry that could not be removed, with its error.
    pub fn record_failure(&mut self, error: CleanError)
        requires
            old(self).failed < u64::MAX,
        ensures
            final(self).failed == old(self).failed + 1,
            final(self).errors@ == old(self).errors@.push(error),
            final(self).cleaned == old(self).cleaned,
            final(self).freed == old(self).freed,
            old(self).tallied() ==> final(self).tallied(),
    {
        self.failed = self.failed + 1;
        self.errors.push(error);
    }

    /// Adds the figures of a subdirectory.
    pub fn absorb(&mut self, sub: RemoveDirStats)
        requires
            old(self).cleaned + sub.cleaned <= u64::MAX,
            old(self).failed + sub.failed <= u64::MAX,
            old(self).freed + sub.freed <= u64::MAX,
        ensures
            final(self).cleaned == old(self).cleaned + sub.cleaned,
            final(self).failed == old(self).failed + sub.failed,
            final(self).freed == old(self).freed + sub.freed,
            final(self).errors@ == old(self).errors@ + sub.errors@,
            old(self).tallied() && sub.tallied() ==> final(self).tallied(),
    {
        self.cleaned = self.cleaned + sub.cleaned;
        self.failed = self.failed + sub.failed;
        self.freed = self.freed + sub.freed;
        let mut errs = sub.errors;
        self.errors.append(&mut errs);
    }
}

/// Copies a list of tasks.
fn clone_tasks(tasks: &Vec<CleanTask>) -> (r: Vec<CleanTask>)
    ensures
        r@ == tasks@,
{
    let mut r: Vec<CleanTask> = Vec::new();
    let mut i: usize = 0;
    while i < tasks.len()
        invariant
            i <= tasks@.len(),
            r@ == tasks@.take(i as int),
        decreases tasks@.len() - i,
    {
        r.push(tasks[i].clone());
        i = i + 1;
        assert(r@ =~= tasks@.take(i as int));
    }
    assert(tasks@.take(tasks@.len() as int) == tasks@);
    r
}

proof fn lemma_totals_monotone(tasks: Seq<CleanTask>, i: int)
    requires
        0 <= i <= tasks.len(),
    ensures
        total_task_size(tasks.take(i)) <= total_task_size(tasks),
        total_task_files(tasks.take(i)) <= total_task_files(tasks),
    decreases tasks.len(),
{
    if i < tasks.len() {
        assert(tasks.drop_last().take(i) == tasks.take(i));
        lemma_totals_monotone(tasks.drop_last(), i);
    } else {
        assert(tasks.take(i) == tasks);
    }
}

proof fn lemma_freed_monotone(results: Seq<CleanResult>, i: int)
    requires
        0 <= i <= results.len(),
    ensures
        total_freed(results.take(i)) <= total_freed(results),
    decreases results.len(),
{
    if i < results.len() {
        assert(results.drop_last().take(i) == results.take(i));
        lemma_freed_monotone(results.drop_last(), i);
    } else {
        assert(results.take(i) == results);
    }
}

proof fn lemma_find_prefix(points: Seq<RestorePoint>, i: int)
    requires
        0 <= i < points.len(),
        find_restore_point(points.take(i), points[i].id@) is None,
    ensures
        find_restore_point(points, points[i].id@) == Some(i),
    decreases points.len(),
{
    if i < points.len() - 1 {
        assert(points.drop_last().take(i) == points.take(i));
        lemma_find_prefix(points.drop_last(), i);
    } else {
        assert(points.drop_last() == points.take(i));
    }
}

/// A restore point is found again by its id: when no earlier restore point
/// has the id, after `finish_execute` recorded the run, looking its id up
/// finds the point just recorded, with the run's tasks.
pub proof fn lemma_recorded_point_found(before: Seq<RestorePoint>, after: Seq<RestorePoint>)
    requires
        after.len() == before.len() + 1,
        after.drop_last() == before,
        find_restore_point(before, after.last().id@) is None,
    ensures
        find_restore_point(after, after.last().id@) == Some(before.len() as int),
{
}

} // verus!
