pub mod common;
pub mod auto_clean;
pub mod large_file;
pub mod browser;
pub mod social_app;
pub mod system_redundant;
pub mod duplicate_file;
pub mod software_mover;
pub mod ai_migrate;
