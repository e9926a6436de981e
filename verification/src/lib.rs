//! Layered configuration resolution for file-operation settings.
//!
//! A partially specified, user-authored configuration is overlaid with
//! values taken from a snapshot of the process environment and with static
//! defaults, producing one fully resolved, immutable configuration value.
//! The precedence is fixed: an explicit user value wins outright, else a
//! set environment variable, else the default.
//!
//! Reading the environment itself is the embedding program's job: it hands
//! the library an [`source::EnvSnapshot`] of plain optional strings, so that
//! resolution is a pure function of (user configuration, snapshot).

pub mod config;
pub mod filter;
pub mod laws;
pub mod mode;
pub mod source;

pub use config::{AdvancedFsUserConfig, FsConfig};
pub use filter::{PatternSet, VecOrSingle};
pub use mode::FsModeConfig;
pub use source::{ConfigError, EnvSnapshot};
