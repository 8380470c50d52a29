//! Postgres connection configuration and bookkeeping.
pub mod config;
mod error;
pub mod startup;
pub mod state;
pub mod stmt_cache;

pub use config::PgConfig;
pub use error::ConfigError;
pub use startup::{StartupConfig, StartupConfigBuilder};
