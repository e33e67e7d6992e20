pub mod logger;
pub mod metrics;
