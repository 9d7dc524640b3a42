//! Provisioning of managed language runtimes and reconciliation of an
//! external application's server configuration.
pub mod config;
pub mod error;
pub mod handlers;
pub mod install;
pub mod resolve;
pub mod runtime;
pub mod servers;
pub mod shell_env;
pub mod text;
