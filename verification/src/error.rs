//! Error types for configuration and runtime operations.
//!
//! Each error has a view over mathematical strings and a `message` that gives
//! the text the error displays.

use vstd::prelude::*;

verus! {

/// Errors that can occur during configuration.
#[derive(Debug, Clone, PartialEq, Eq)]
pub enum ConfigError {
    /// The specified Python directory does not exist.
    PythonDirNotFound(String),
    /// The framework file was not found in the Python directory.
    FrameworkNotFound(String),
    /// The virtual environment holds no `lib/python*/site-packages` directory.
    VenvInvalid(String),
    /// Error resolving a path.
    PathResolution(String),
    /// Invalid worker count configuration.
    InvalidWorkerCount(String),
}

/// The mathematical value of a [`ConfigError`].
pub enum ConfigErrorView {
    PythonDirNotFound(Seq<char>),
    FrameworkNotFound(Seq<char>),
    VenvInvalid(Seq<char>),
    PathResolution(Seq<char>),
    InvalidWorkerCount(Seq<char>),
}

impl View for ConfigError {
    type V = ConfigErrorView;

    open spec fn view(&self) -> ConfigErrorView {
        match self {
            ConfigError::PythonDirNotFound(p) => ConfigErrorView::PythonDirNotFound(p@),
            ConfigError::FrameworkNotFound(p) => ConfigErrorView::FrameworkNotFound(p@),
            ConfigError::VenvInvalid(p) => ConfigErrorView::VenvInvalid(p@),
            ConfigError::PathResolution(m) => ConfigErrorView::PathResolution(m@),
            ConfigError::InvalidWorkerCount(m) => ConfigErrorView::InvalidWorkerCount(m@),
        }
    }
}

/// The text that a configuration error displays.
pub open spec fn spec_config_message(e: ConfigErrorView) -> Seq<char> {
    match e {
        ConfigErrorView::PythonDirNotFound(p) => "Python directory not found: "@ + p,
        ConfigErrorView::FrameworkNotFound(p) => "Framework file 'rustywrapper.py' not found in: "@ + p,
        ConfigErrorView::VenvInvalid(p) => "Virtual environment has no lib/python*/site-packages: "@ + p,
        ConfigErrorView::PathResolution(m) => "Path resolution error: "@ + m,
        ConfigErrorView::InvalidWorkerCount(m) => "Invalid worker count: "@ + m,
    }
}

impl ConfigError {
    /// The text this error displays.
    pub fn message(&self) -> (res: String)
        ensures
            res@ == spec_config_message(self@),
    {
        match self {
            ConfigError::PythonDirNotFound(p) => String::from_str(
                "Python directory not found: ",
            ).concat(p.as_str()),
            ConfigError::FrameworkNotFound(p) => String::from_str(
                "Framework file 'rustywrapper.py' not found in: ",
            ).concat(p.as_str()),
            ConfigError::VenvInvalid(p) => String::from_str(
                "Virtual environment has no lib/python*/site-packages: ",
            ).concat(p.as_str()),
            ConfigError::PathResolution(m) => String::from_str("Path resolution error: ").concat(
                m.as_str(),
            ),
            ConfigError::InvalidWorkerCount(m) => String::from_str("Invalid worker count: ").concat(
                m.as_str(),
            ),
        }
    }
}

/// Errors that can occur during runtime operations.
#[derive(Debug, Clone, PartialEq, Eq)]
pub enum RuntimeError {
    /// Error sending a message through the channel.
    ChannelSend(String),
    /// Error receiving a message from the channel.
    ChannelRecv(String),
    /// Python-related error.
    Python(String),
    /// Thread-related error.
    Thread(String),
    /// Configuration error.
    Config(ConfigError),
    /// Async dispatch was requested from a runtime that has it disabled.
    AsyncNotEnabled,
}

/// The mathematical value of a [`RuntimeError`].
pub enum RuntimeErrorView {
    ChannelSend(Seq<char>),
    ChannelRecv(Seq<char>),
    Python(Seq<char>),
    Thread(Seq<char>),
    Config(ConfigErrorView),
    AsyncNotEnabled,
}

impl View for RuntimeError {
    type V = RuntimeErrorView;

    open spec fn view(&self) -> RuntimeErrorView {
        match self {
            RuntimeError::ChannelSend(m) => RuntimeErrorView::ChannelSend(m@),
            RuntimeError::ChannelRecv(m) => RuntimeErrorView::ChannelRecv(m@),
            RuntimeError::Python(m) => RuntimeErrorView::Python(m@),
            RuntimeError::Thread(m) => RuntimeErrorView::Thread(m@),
            RuntimeError::Config(e) => RuntimeErrorView::Config(e@),
            RuntimeError::AsyncNotEnabled => RuntimeErrorView::AsyncNotEnabled,
        }
    }
}

/// The text that a runtime error displays.
pub open spec fn spec_runtime_message(e: RuntimeErrorView) -> Seq<char> {
    match e {
        RuntimeErrorView::ChannelSend(m) => "Channel send error: "@ + m,
        RuntimeErrorView::ChannelRecv(m) => "Channel receive error: "@ + m,
        RuntimeErrorView::Python(m) => "Python error: "@ + m,
        RuntimeErrorView::Thread(m) => "Thread error: "@ + m,
        RuntimeErrorView::Config(c) => "Configuration error: "@ + spec_config_message(c),
        RuntimeErrorView::AsyncNotEnabled => "Async dispatch is not enabled"@,
    }
}

impl RuntimeError {
    /// The text this error displays.
    pub fn message(&self) -> (res: String)
        ensures
            res@ == spec_runtime_message(self@),
    {
        match self {
            RuntimeError::ChannelSend(m) => String::from_str("Channel send error: ").concat(
                m.as_str(),
            ),
            RuntimeError::ChannelRecv(m) => String::from_str("Channel receive error: ").concat(
                m.as_str(),
            ),
            RuntimeError::Python(m) => String::from_str("Python error: ").concat(m.as_str()),
            RuntimeError::Thread(m) => String::from_str("Thread error: ").concat(m.as_str()),
            RuntimeError::Config(c) => {
                let inner = c.message();
                String::from_str("Configuration error: ").concat(inner.as_str())
            },
            RuntimeError::AsyncNotEnabled => String::from_str("Async dispatch is not enabled"),
        }
    }
}

impl From<ConfigError> for RuntimeError {
    /// Wraps a configuration error.
    fn from(e: ConfigError) -> (res: RuntimeError) {
        RuntimeError::Config(e)
    }
}

impl vstd::std_specs::convert::FromSpecImpl<ConfigError> for RuntimeError {
    open spec fn obeys_from_spec() -> bool {
        true
    }

    open spec fn from_spec(e: ConfigError) -> RuntimeError {
        RuntimeError::Config(e)
    }
}

} // verus!
