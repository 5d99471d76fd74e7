//! What a clean-up is asked to do and what it reports back.
use vstd::prelude::*;

use super::scan::RiskLevel;

verus! {

/// How urgent a clean-up task is.
#[derive(Debug, Clone, Copy, PartialEq, Eq, Structural)]
pub enum CleanPriority {
    Low,
    Normal,
    High,
    Critical,
}

/// What is done with a target.
#[derive(Debug, Clone, Copy, PartialEq, Eq, Structural)]
pub enum CleanAction {
    Delete,
    Move,
    Compress,
    Archive,
}

/// One target to clean.
#[derive(Debug)]
pub struct CleanTask {
    pub id: String,
    pub target_id: String,
    pub target_path: String,
    pub target_name: String,
    pub action: CleanAction,
    pub priority: CleanPriority,
    pub risk_level: RiskLevel,
    pub size: u64,
    pub file_count: u64,
    pub backup_required: bool,
}

impl Clone for CleanTask {
    fn clone(&self) -> (r: Self)
        ensures
            r == *self,
    {
        CleanTask {
            id: self.id.clone(),
            target_id: self.target_id.clone(),
            target_path: self.target_path.clone(),
            target_name: self.target_name.clone(),
            action: self.action,
            priority: self.priority,
            risk_level: self.risk_level,
            size: self.size,
            file_count: self.file_count,
            backup_required: self.backup_required,
        }
    }
}

/// A file that could not be cleaned, and why.
#[derive(Debug)]
pub struct CleanError {
    pub file_path: String,
    pub error_code: String,
    pub message: String,
}

impl Clone for CleanError {
    fn clone(&self) -> (r: Self)
        ensures
            r == *self,
    {
        CleanError {
            file_path: self.file_path.clone(),
            error_code: self.error_code.clone(),
            message: self.message.clone(),
        }
    }
}

/// The outcome of one task.
#[derive(Debug, Clone)]
pub struct CleanResult {
    pub task_id: String,
    pub success: bool,
    pub freed_space: u64,
    pub cleaned_files: u64,
    pub failed_files: u64,
    pub backup_path: String,
    pub elapsed_time_ms: u64,
    pub errors: Vec<CleanError>,
}

/// The stage a clean-up is in.
#[derive(Debug, Clone, Copy, PartialEq, Eq, Structural)]
pub enum CleanPhase {
    Preparing,
    BackingUp,
    Cleaning,
    Verifying,
    Completed,
    Failed,
    Cancelled,
}

/// What a clean-up backed up, so that it can be put back.
#[derive(Debug, Clone)]
pub struct RestorePoint {
    pub id: String,
    pub created_at: String,
    pub tasks: Vec<CleanTask>,
    pub total_size: u64,
    pub description: String,
}

} // verus!
