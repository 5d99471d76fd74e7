pub mod file_utils;
