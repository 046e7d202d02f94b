//! Server configuration.
pub mod config;
