//! The one error type of the library.
use vstd::prelude::*;

verus! {

/// What went wrong, with a message for the user.
#[derive(Debug)]
pub enum AppError {
    ScanError(String),
    CleanError(String),
    AIError(String),
    DatabaseError(String),
    FileSystemError(String),
    ConfigError(String),
    PermissionError(String),
    PluginError(String),
    MigrateError(String),
    SystemError(String),
    NetworkError(String),
    UnknownError(String),
}

impl Clone for AppError {
    fn clone(&self) -> (r: Self)
        ensures
            r == *self,
    {
        match self {
            AppError::ScanError(m) => AppError::ScanError(m.clone()),
            AppError::CleanError(m) => AppError::CleanError(m.clone()),
            AppError::AIError(m) => AppError::AIError(m.clone()),
            AppError::DatabaseError(m) => AppError::DatabaseError(m.clone()),
            AppError::FileSystemError(m) => AppError::FileSystemError(m.clone()),
            AppError::ConfigError(m) => AppError::ConfigError(m.clone()),
            AppError::PermissionError(m) => AppError::PermissionError(m.clone()),
            AppError::PluginError(m) => AppError::PluginError(m.clone()),
            AppError::MigrateError(m) => AppError::MigrateError(m.clone()),
            AppError::SystemError(m) => AppError::SystemError(m.clone()),
            AppError::NetworkError(m) => AppError::NetworkError(m.clone()),
            AppError::UnknownError(m) => AppError::UnknownError(m.clone()),
        }
    }
}

/// The label that introduces each kind of error.
pub open spec fn error_label(e: AppError) -> Seq<char> {
    match e {
        AppError::ScanError(_) => "扫描错误: "@,
        AppError::CleanError(_) => "清理错误: "@,
        AppError::AIError(_) => "AI服务错误: "@,
        AppError::DatabaseError(_) => "数据库错误: "@,
        AppError::FileSystemError(_) => "文件系统错误: "@,
        AppError::ConfigError(_) => "配置错误: "@,
        AppError::PermissionError(_) => "权限不足: "@,
        AppError::PluginError(_) => "插件错误: "@,
        AppError::MigrateError(_) => "迁移错误: "@,
        AppError::SystemError(_) => "系统错误: "@,
        AppError::NetworkError(_) => "网络错误: "@,
        AppError::UnknownError(_) => "未知错误: "@,
    }
}

/// The detail carried by an error.
pub open spec fn error_detail(e: AppError) -> Seq<char> {
    match e {
        AppError::ScanError(m) => m@,
        AppError::CleanError(m) => m@,
        AppError::AIError(m) => m@,
        AppError::DatabaseError(m) => m@,
        AppError::FileSystemError(m) => m@,
        AppError::ConfigError(m) => m@,
        AppError::PermissionError(m) => m@,
        AppError::PluginError(m) => m@,
        AppError::MigrateError(m) => m@,
        AppError::SystemError(m) => m@,
        AppError::NetworkError(m) => m@,
        AppError::UnknownError(m) => m@,
    }
}

impl AppError {
    /// The message shown to the user: the kind's label, then the detail.
    pub fn message(&self) -> (r: String)
        ensures
            r@ == error_label(*self) + error_detail(*self),
    {
        match self {
            AppError::ScanError(m) => crate::text::concat("扫描错误: ", m.as_str()),
            AppError::CleanError(m) => crate::text::concat("清理错误: ", m.as_str()),
            AppError::AIError(m) => crate::text::concat("AI服务错误: ", m.as_str()),
            AppError::DatabaseError(m) => crate::text::concat("数据库错误: ", m.as_str()),
            AppError::FileSystemError(m) => crate::text::concat("文件系统错误: ", m.as_str()),
            AppError::ConfigError(m) => crate::text::concat("配置错误: ", m.as_str()),
            AppError::PermissionError(m) => crate::text::concat("权限不足: ", m.as_str()),
            AppError::PluginError(m) => crate::text::concat("插件错误: ", m.as_str()),
            AppError::MigrateError(m) => crate::text::concat("迁移错误: ", m.as_str()),
            AppError::SystemError(m) => crate::text::concat("系统错误: ", m.as_str()),
            AppError::NetworkError(m) => crate::text::concat("网络错误: ", m.as_str()),
            AppError::UnknownError(m) => crate::text::concat("未知错误: ", m.as_str()),
        }
    }
}

} // verus!
