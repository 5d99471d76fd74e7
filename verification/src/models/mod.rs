pub mod clean;
pub mod config;
pub mod plugin;
pub mod scan;
pub mod system;
