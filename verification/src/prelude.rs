//! Common imports: `use snaxum::prelude::*;`.

pub use crate::config::{ChimeraConfig, ChimeraConfigBuilder, DirEntryInfo, HostFacts, PathKind};
pub use crate::dispatch::DispatchResult;
pub use crate::error::{ConfigError, RuntimeError};
