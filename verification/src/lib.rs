pub mod commands;
pub mod error;
pub mod models;
pub mod plugins;
pub mod services;
pub mod store;
pub mod text;
pub mod utils;
