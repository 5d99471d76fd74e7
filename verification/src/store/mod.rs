pub mod audit_logger;
