pub mod signature_verifier;
pub mod safety_guard;
pub mod clean_engine;
pub mod file_walker;
pub mod scan_engine;
pub mod ai_service;
pub mod plugin_manager;
pub mod evaluation_engine;
pub mod usn_scanner;
pub mod software_detector;
pub mod fingerprint_cache;
