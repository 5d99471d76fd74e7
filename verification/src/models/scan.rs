//! What a scan looks at and what it finds.
use vstd::prelude::*;

verus! {

/// How much of the drive a scan covers.
#[derive(Debug, Clone)]
pub enum ScanMode {
    Quick,
    Deep,
    Custom(Vec<String>),
}

/// The kind of content a file or a group of files is judged to be.
#[derive(Debug, Clone, Copy, PartialEq, Eq, Structural)]
pub enum ScanCategory {
    Temp,
    Cache,
    Log,
    Download,
    Recycle,
    Browser,
    System,
    App,
    Other,
}

/// A location that a scan reports on.
#[derive(Debug, Clone)]
pub struct ScanTarget {
    pub id: String,
    pub path: String,
    pub name: String,
    pub category: ScanCategory,
    pub size: u64,
    pub file_count: u64,
    pub description: String,
}

/// How risky it is to remove something, from harmless to dangerous.
#[derive(Debug, Clone, Copy, PartialEq, Eq, Structural)]
pub enum RiskLevel {
    Safe,
    Low,
    Medium,
    High,
    Critical,
}

/// One file as the walker saw it.
#[derive(Debug)]
pub struct FileMetadata {
    pub path: String,
    pub name: String,
    pub size: u64,
    pub modified_at: String,
    pub created_at: String,
    pub is_directory: bool,
    pub extension: String,
    pub category: ScanCategory,
    pub hash: String,
}

impl Clone for FileMetadata {
    fn clone(&self) -> (r: Self)
        ensures
            r == *self,
    {
        FileMetadata {
            path: self.path.clone(),
            name: self.name.clone(),
            size: self.size,
            modified_at: self.modified_at.clone(),
            created_at: self.created_at.clone(),
            is_directory: self.is_directory,
            extension: self.extension.clone(),
            category: self.category,
            hash: self.hash.clone(),
        }
    }
}

/// The stage a scan is in.
#[derive(Debug, Clone, Copy, PartialEq, Eq, Structural)]
pub enum ScanPhase {
    Initializing,
    Scanning,
    Analyzing,
    Evaluating,
    Completed,
    Cancelled,
    Error,
}

} // verus!
