//! Snaxum: Flask-style Python routing for Rust/Axum applications.
//!
//! The verified part of the library: configuration building and validation,
//! the decisions of the request dispatcher, the Python runtime's worker
//! protocol, and the request/response shapes of the bundled handlers.

pub mod paths;
pub mod error;
pub mod config;
pub mod text;
pub mod json;
pub mod dispatch;
pub mod dispatcher;
pub mod worker;
pub mod handlers;
pub mod laws;
pub mod prelude;

pub use config::{ChimeraConfig, ChimeraConfigBuilder, DirEntryInfo, HostFacts, PathKind};
pub use dispatch::DispatchResult;
pub use error::{ConfigError, RuntimeError};
