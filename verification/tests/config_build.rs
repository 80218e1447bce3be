use snaxum::config::{site_packages_candidate, site_packages_dir, venv_lib_dir, ChimeraConfig, ChimeraConfigBuilder, DirEntryInfo, HostFacts, PathKind};
use snaxum::error::{ConfigError, RuntimeError};

fn host(cwd: &str) -> HostFacts {
    HostFacts {
        current_dir: Ok(cwd.to_string()),
        virtual_env: None,
        python_dir: PathKind::Missing,
        venv_lib: PathKind::Missing,
        venv_lib_entries: None,
    }
}

fn host_with_python_dir(cwd: &str) -> HostFacts {
    let mut h = host(cwd);
    h.python_dir = PathKind::Directory;
    h
}

fn entry(name: &str, is_dir: bool) -> DirEntryInfo {
    DirEntryInfo { name: Some(name.to_string()), is_dir, has_site_packages: is_dir }
}

fn entry_without_site_packages(name: &str) -> DirEntryInfo {
    DirEntryInfo { name: Some(name.to_string()), is_dir: true, has_site_packages: false }
}

#[test]
fn test_builder_defaults() {
    let builder = ChimeraConfig::builder()
        .module("endpoints")
        .pool_workers(2)
        .dispatch_workers(2);

    assert_eq!(builder.modules.len(), 1);
    assert_eq!(builder.pool_workers, Some(2));
    assert_eq!(builder.dispatch_workers, Some(2));
}

#[test]
fn test_zero_workers_rejected() {
    // No python directory exists in the reported host, as in a bare checkout.
    let result = ChimeraConfigBuilder::new().pool_workers(0).build(&host("/work"));
    assert!(result.is_err());
}

#[test]
fn zero_pool_workers_rejected_with_valid_dir() {
    let result = ChimeraConfigBuilder::new().pool_workers(0).build(&host_with_python_dir("/work"));
    assert_eq!(
        result.unwrap_err(),
        ConfigError::InvalidWorkerCount("pool_workers must be at least 1".to_string())
    );
}

#[test]
fn zero_dispatch_workers_rejected() {
    let result = ChimeraConfigBuilder::new().dispatch_workers(0).build(&host_with_python_dir("/work"));
    assert_eq!(
        result.unwrap_err(),
        ConfigError::InvalidWorkerCount("dispatch_workers must be at least 1".to_string())
    );
}

#[test]
fn build_defaults() {
    let config = ChimeraConfigBuilder::new().build(&host_with_python_dir("/work")).unwrap();
    assert_eq!(config.python_dir, "/work/python");
    assert_eq!(config.venv_site_packages, None);
    assert!(config.modules.is_empty());
    assert_eq!(config.pool_workers, 4);
    assert_eq!(config.dispatch_workers, 4);
    assert!(!config.disable_signal_handler);
    assert!(config.enable_async);
}

#[test]
fn default_config_values() {
    let config = ChimeraConfig::default();
    assert_eq!(config.python_dir, "python");
    assert_eq!(config.venv_site_packages, None);
    assert!(config.modules.is_empty());
    assert_eq!(config.pool_workers, 4);
    assert_eq!(config.dispatch_workers, 4);
    assert!(!config.disable_signal_handler);
    assert!(config.enable_async);
}

#[test]
fn build_keeps_settings() {
    let config = ChimeraConfig::builder()
        .python_dir("handlers")
        .module("endpoints")
        .modules(vec!["pool_handlers".to_string(), "extra".to_string()])
        .pool_workers(2)
        .dispatch_workers(3)
        .disable_signal_handler(true)
        .enable_async(false)
        .build(&host_with_python_dir("/srv/app/"))
        .unwrap();
    assert_eq!(config.python_dir, "/srv/app/handlers");
    assert_eq!(config.modules, vec!["endpoints", "pool_handlers", "extra"]);
    assert_eq!(config.pool_workers, 2);
    assert_eq!(config.dispatch_workers, 3);
    assert!(config.disable_signal_handler);
    assert!(!config.enable_async);
}

#[test]
fn absolute_python_dir_ignores_current_dir() {
    let mut facts = host_with_python_dir("/work");
    facts.current_dir = Err("permission denied".to_string());
    let config = ChimeraConfigBuilder::new().python_dir("/opt/py").build(&facts).unwrap();
    assert_eq!(config.python_dir, "/opt/py");
}

#[test]
fn unreadable_current_dir_fails() {
    let mut facts = host_with_python_dir("/work");
    facts.current_dir = Err("permission denied".to_string());
    let err = ChimeraConfigBuilder::new().build(&facts).unwrap_err();
    assert_eq!(
        err,
        ConfigError::PathResolution("Failed to get current directory: permission denied".to_string())
    );
}

#[test]
fn missing_python_dir() {
    let err = ChimeraConfigBuilder::new().python_dir("py").build(&host("/work")).unwrap_err();
    assert_eq!(err, ConfigError::PythonDirNotFound("/work/py".to_string()));
    assert_eq!(err.message(), "Python directory not found: /work/py");
}

#[test]
fn python_dir_not_a_directory() {
    let mut facts = host("/work");
    facts.python_dir = PathKind::Other;
    let err = ChimeraConfigBuilder::new().build(&facts).unwrap_err();
    assert_eq!(
        err,
        ConfigError::PathResolution("Path is not a directory: /work/python".to_string())
    );
}

#[test]
fn python_dir_target_joins_relative() {
    let b = ChimeraConfigBuilder::new().python_dir("a/b");
    assert_eq!(b.python_dir_target(&Ok("/x".to_string())).unwrap(), "/x/a/b");
    let b = ChimeraConfigBuilder::new();
    assert_eq!(b.python_dir_target(&Ok("/".to_string())).unwrap(), "/python");
}

fn venv_host(entries: Vec<DirEntryInfo>) -> HostFacts {
    let mut facts = host_with_python_dir("/work");
    facts.venv_lib = PathKind::Directory;
    facts.venv_lib_entries = Some(entries);
    facts
}

#[test]
fn venv_from_environment() {
    let mut facts = venv_host(vec![entry("python3.11", true)]);
    facts.virtual_env = Some("/home/u/.venv".to_string());
    let config = ChimeraConfigBuilder::new().build(&facts).unwrap();
    assert_eq!(
        config.venv_site_packages.as_deref(),
        Some("/home/u/.venv/lib/python3.11/site-packages")
    );
}

#[test]
fn explicit_venv_overrides_environment() {
    let mut facts = venv_host(vec![entry("python3.12", true)]);
    facts.virtual_env = Some("/elsewhere".to_string());
    let config = ChimeraConfigBuilder::new().venv(".venv").build(&facts).unwrap();
    assert_eq!(
        config.venv_site_packages.as_deref(),
        Some("/work/.venv/lib/python3.12/site-packages")
    );
}

#[test]
fn empty_virtual_env_means_no_venv() {
    let mut facts = host_with_python_dir("/work");
    facts.virtual_env = Some(String::new());
    let config = ChimeraConfigBuilder::new().build(&facts).unwrap();
    assert_eq!(config.venv_site_packages, None);
}

#[test]
fn venv_without_lib_is_invalid() {
    let mut facts = host_with_python_dir("/work");
    facts.virtual_env = Some("/v".to_string());
    let err = ChimeraConfigBuilder::new().build(&facts).unwrap_err();
    assert_eq!(err, ConfigError::VenvInvalid("/v".to_string()));
}

#[test]
fn venv_with_unreadable_lib_is_invalid() {
    let mut facts = venv_host(vec![]);
    facts.venv_lib_entries = None;
    let err = ChimeraConfigBuilder::new().venv("/v").build(&facts).unwrap_err();
    assert_eq!(err, ConfigError::VenvInvalid("/v".to_string()));
}

#[test]
fn venv_without_python_dir_is_invalid() {
    let facts = venv_host(
        vec![
            entry("python3.11", false),
            entry("site", true),
            DirEntryInfo { name: None, is_dir: true, has_site_packages: true },
        ],
    );
    let err = ChimeraConfigBuilder::new().venv("/v").build(&facts).unwrap_err();
    assert_eq!(err, ConfigError::VenvInvalid("/v".to_string()));
}

#[test]
fn venv_without_site_packages_is_invalid() {
    let facts = venv_host(vec![entry_without_site_packages("python3.11")]);
    let err = ChimeraConfigBuilder::new().venv("/v").build(&facts).unwrap_err();
    assert_eq!(err, ConfigError::VenvInvalid("/v".to_string()));
}

#[test]
fn first_python_dir_in_listing_is_used() {
    let entries = vec![
        entry("pkgconfig", true),
        entry("python3.9.txt", false),
        entry("python3.10", true),
        entry("python3.11", true),
    ];
    assert_eq!(site_packages_dir("/v/lib", "python3.10"), "/v/lib/python3.10/site-packages");
    assert_eq!(
        site_packages_candidate("/v/lib", &entries).as_deref(),
        Some("/v/lib/python3.10/site-packages")
    );
    assert_eq!(venv_lib_dir("/v"), "/v/lib");
    assert_eq!(venv_lib_dir("/v/"), "/v/lib");
}

#[test]
fn venv_root_choice() {
    let b = ChimeraConfigBuilder::new();
    assert_eq!(b.venv_root(&Ok("/w".to_string()), &None).unwrap(), None);
    assert_eq!(
        b.venv_root(&Ok("/w".to_string()), &Some("env".to_string())).unwrap().as_deref(),
        Some("/w/env")
    );
    assert_eq!(
        b.venv_root(&Err("gone".to_string()), &Some("env".to_string())).unwrap_err(),
        ConfigError::PathResolution("Failed to get current directory: gone".to_string())
    );
}

#[test]
fn config_error_messages() {
    assert_eq!(
        ConfigError::InvalidWorkerCount("x".to_string()).message(),
        "Invalid worker count: x"
    );
    assert_eq!(
        ConfigError::PathResolution("y".to_string()).message(),
        "Path resolution error: y"
    );
    assert_eq!(
        ConfigError::FrameworkNotFound("/p".to_string()).message(),
        "Framework file 'rustywrapper.py' not found in: /p"
    );
}

#[test]
fn runtime_error_messages() {
    assert_eq!(RuntimeError::ChannelSend("full".to_string()).message(), "Channel send error: full");
    assert_eq!(RuntimeError::ChannelRecv("closed".to_string()).message(), "Channel receive error: closed");
    assert_eq!(RuntimeError::Python("boom".to_string()).message(), "Python error: boom");
    assert_eq!(RuntimeError::Thread("spawn".to_string()).message(), "Thread error: spawn");
    assert_eq!(RuntimeError::AsyncNotEnabled.message(), "Async dispatch is not enabled");
    let wrapped: RuntimeError = ConfigError::PythonDirNotFound("/p".to_string()).into();
    assert_eq!(wrapped.message(), "Configuration error: Python directory not found: /p");
    assert_eq!(wrapped, RuntimeError::Config(ConfigError::PythonDirNotFound("/p".to_string())));
}

#[test]
fn later_python_dir_with_site_packages_is_found() {
    let facts = venv_host(vec![entry_without_site_packages("python3.11"), entry("python3.12", true)]);
    let config = ChimeraConfigBuilder::new().venv("/v").build(&facts).unwrap();
    assert_eq!(
        config.venv_site_packages.as_deref(),
        Some("/v/lib/python3.12/site-packages")
    );
}

#[test]
fn resolve_venv_site_packages_directly() {
    let facts = venv_host(vec![entry("python3.12", true)]);
    let b = ChimeraConfigBuilder::new().venv("/v");
    assert_eq!(
        b.resolve_venv_site_packages(&facts).unwrap().as_deref(),
        Some("/v/lib/python3.12/site-packages")
    );
    let none = ChimeraConfigBuilder::new();
    assert_eq!(none.resolve_venv_site_packages(&facts).unwrap(), None);
}

#[test]
fn runtime_builder_from_counts() {
    let b = ChimeraConfigBuilder::for_runtime(3, 5, vec!["endpoints".to_string(), "pool_handlers".to_string()]);
    assert_eq!(b.python_dir.as_deref(), Some("python"));
    assert_eq!(b.venv_path, None);
    assert_eq!(b.modules, vec!["endpoints", "pool_handlers"]);
    assert_eq!(b.pool_workers, Some(3));
    assert_eq!(b.dispatch_workers, Some(5));
    assert!(!b.disable_signal_handler);
    assert_eq!(b.enable_async, None);
}
