//! Configuration for the Python runtime.
//!
//! A [`ChimeraConfigBuilder`] collects settings; [`ChimeraConfigBuilder::build`]
//! resolves the Python directory and the virtual environment's
//! `site-packages` against what the host reports ([`HostFacts`]) and
//! validates the worker counts.

use vstd::prelude::*;
use crate::error::{ConfigError, ConfigErrorView};
use crate::paths::{is_absolute, join, spec_is_absolute, spec_join};

verus! {

/// Default number of process-pool workers and of dispatch workers.
pub const DEFAULT_WORKERS: usize = 4;

/// Configuration for the Python runtime.
#[derive(Debug, Clone)]
pub struct ChimeraConfig {
    /// Absolute path to the directory containing Python handlers.
    pub python_dir: String,
    /// Path to the venv's site-packages directory, if a venv was configured or detected.
    pub venv_site_packages: Option<String>,
    /// Python module names to import (they register routes via `@route`).
    pub modules: Vec<String>,
    /// Number of ProcessPoolExecutor workers for CPU-bound Python tasks.
    pub pool_workers: usize,
    /// Number of Rust threads that can dispatch to Python concurrently.
    pub dispatch_workers: usize,
    /// If true, the Python SIGINT handler is left alone.
    pub disable_signal_handler: bool,
    /// Whether the asyncio thread for async handlers is started.
    pub enable_async: bool,
}

/// The mathematical value of a [`ChimeraConfig`].
pub struct ConfigView {
    pub python_dir: Seq<char>,
    pub venv_site_packages: Option<Seq<char>>,
    pub modules: Seq<String>,
    pub pool_workers: usize,
    pub dispatch_workers: usize,
    pub disable_signal_handler: bool,
    pub enable_async: bool,
}

/// The view of an optional string.
pub open spec fn opt_str_view(o: Option<String>) -> Option<Seq<char>> {
    match o {
        Some(s) => Some(s@),
        None => None,
    }
}

impl View for ChimeraConfig {
    type V = ConfigView;

    open spec fn view(&self) -> ConfigView {
        ConfigView {
            python_dir: self.python_dir@,
            venv_site_packages: opt_str_view(self.venv_site_packages),
            modules: self.modules@,
            pool_workers: self.pool_workers,
            dispatch_workers: self.dispatch_workers,
            disable_signal_handler: self.disable_signal_handler,
            enable_async: self.enable_async,
        }
    }
}

impl ChimeraConfig {
    /// Create a new configuration builder.
    pub fn builder() -> (res: ChimeraConfigBuilder)
        ensures
            res@ == spec_empty_builder(),
    {
        ChimeraConfigBuilder::new()
    }
}

impl Default for ChimeraConfig {
    fn default() -> (res: Self)
        ensures
            res@.python_dir == "python"@,
            res@.venv_site_packages is None,
            res@.modules.len() == 0,
            res@.pool_workers == DEFAULT_WORKERS,
            res@.dispatch_workers == DEFAULT_WORKERS,
            !res@.disable_signal_handler,
            res@.enable_async,
    {
        ChimeraConfig {
            python_dir: String::from_str("python"),
            venv_site_packages: None,
            modules: Vec::new(),
            pool_workers: DEFAULT_WORKERS,
            dispatch_workers: DEFAULT_WORKERS,
            disable_signal_handler: false,
            enable_async: true,
        }
    }
}

/// Builder for creating a [`ChimeraConfig`].
#[derive(Debug, Clone)]
pub struct ChimeraConfigBuilder {
    pub python_dir: Option<String>,
    pub venv_path: Option<String>,
    pub modules: Vec<String>,
    pub pool_workers: Option<usize>,
    pub dispatch_workers: Option<usize>,
    pub disable_signal_handler: bool,
    pub enable_async: Option<bool>,
}

/// The mathematical value of a [`ChimeraConfigBuilder`].
pub struct BuilderView {
    pub python_dir: Option<Seq<char>>,
    pub venv_path: Option<Seq<char>>,
    pub modules: Seq<String>,
    pub pool_workers: Option<usize>,
    pub dispatch_workers: Option<usize>,
    pub disable_signal_handler: bool,
    pub enable_async: Option<bool>,
}

impl View for ChimeraConfigBuilder {
    type V = BuilderView;

    open spec fn view(&self) -> BuilderView {
        BuilderView {
            python_dir: opt_str_view(self.python_dir),
            venv_path: opt_str_view(self.venv_path),
            modules: self.modules@,
            pool_workers: self.pool_workers,
            dispatch_workers: self.dispatch_workers,
            disable_signal_handler: self.disable_signal_handler,
            enable_async: self.enable_async,
        }
    }
}

/// A builder with nothing set.
pub open spec fn spec_empty_builder() -> BuilderView {
    BuilderView {
        python_dir: None,
        venv_path: None,
        modules: Seq::empty(),
        pool_workers: None,
        dispatch_workers: None,
        disable_signal_handler: false,
        enable_async: None,
    }
}

impl ChimeraConfigBuilder {
    /// Create a new configuration builder with nothing set.
    pub fn new() -> (res: Self)
        ensures
            res@ == spec_empty_builder(),
    {
        ChimeraConfigBuilder {
            python_dir: None,
            venv_path: None,
            modules: Vec::new(),
            pool_workers: None,
            dispatch_workers: None,
            disable_signal_handler: false,
            enable_async: None,
        }
    }

    /// The builder of a runtime created from worker counts and module names
    /// alone: Python directory `python`, the given modules in order, and the
    /// given worker counts.
    pub fn for_runtime(pool_workers: usize, dispatch_workers: usize, python_modules: Vec<String>) -> (res:
        Self)
        ensures
            res@ == (BuilderView {
                python_dir: Some("python"@),
                modules: python_modules@,
                pool_workers: Some(pool_workers),
                dispatch_workers: Some(dispatch_workers),
                ..spec_empty_builder()
            }),
    {
        let b = ChimeraConfigBuilder::new().python_dir("python").modules(python_modules).pool_workers(
            pool_workers,
        ).dispatch_workers(dispatch_workers);
        proof {
            assert(Seq::<String>::empty() + python_modules@ =~= python_modules@);
        }
        b
    }

    /// Set the path to the directory containing Python handlers.
    ///
    /// A relative path is resolved from the current directory when the
    /// configuration is built.
    pub fn python_dir(self, path: &str) -> (res: Self)
        ensures
            res@ == (BuilderView { python_dir: Some(path@), ..self@ }),
    {
        ChimeraConfigBuilder { python_dir: Some(String::from_str(path)), ..self }
    }

    /// Override the virtual environment path (otherwise `VIRTUAL_ENV` is used).
    pub fn venv(self, path: &str) -> (res: Self)
        ensures
            res@ == (BuilderView { venv_path: Some(path@), ..self@ }),
    {
        ChimeraConfigBuilder { venv_path: Some(String::from_str(path)), ..self }
    }

    /// Add a Python module to import.
    pub fn module(self, module: &str) -> (res: Self)
        ensures
            res@.modules.len() == self@.modules.len() + 1,
            res@.modules.last()@ == module@,
            res@.modules.drop_last() == self@.modules,
            res@ == (BuilderView { modules: res@.modules, ..self@ }),
    {
        let mut b = self;
        b.modules.push(String::from_str(module));
        proof {
            assert(b@.modules.drop_last() =~= self@.modules);
        }
        b
    }

    /// Add several Python modules to import, in order.
    pub fn modules(self, modules: Vec<String>) -> (res: Self)
        ensures
            res@ == (BuilderView { modules: self@.modules + modules@, ..self@ }),
    {
        let mut b = self;
        let mut i: usize = 0;
        while i < modules.len()
            invariant
                i <= modules.len(),
                b@ == (BuilderView { modules: self@.modules + modules@.subrange(0, i as int), ..self@ }),
            decreases modules.len() - i,
        {
            b.modules.push(modules[i].clone());
            proof {
                assert(self@.modules + modules@.subrange(0, i + 1) =~= (self@.modules
                    + modules@.subrange(0, i as int)).push(modules@[i as int]));
            }
            i = i + 1;
        }
        proof {
            assert(modules@.subrange(0, modules@.len() as int) =~= modules@);
        }
        b
    }

    /// Set the number of ProcessPoolExecutor workers (default 4).
    pub fn pool_workers(self, count: usize) -> (res: Self)
        ensures
            res@ == (BuilderView { pool_workers: Some(count), ..self@ }),
    {
        ChimeraConfigBuilder { pool_workers: Some(count), ..self }
    }

    /// Set the number of Rust dispatch threads (default 4).
    pub fn dispatch_workers(self, count: usize) -> (res: Self)
        ensures
            res@ == (BuilderView { dispatch_workers: Some(count), ..self@ }),
    {
        ChimeraConfigBuilder { dispatch_workers: Some(count), ..self }
    }

    /// Disable the Python SIGINT handler setup.
    pub fn disable_signal_handler(self, disable: bool) -> (res: Self)
        ensures
            res@ == (BuilderView { disable_signal_handler: disable, ..self@ }),
    {
        ChimeraConfigBuilder { disable_signal_handler: disable, ..self }
    }

    /// Enable or disable async Python handlers (default enabled).
    pub fn enable_async(self, enable: bool) -> (res: Self)
        ensures
            res@ == (BuilderView { enable_async: Some(enable), ..self@ }),
    {
        ChimeraConfigBuilder { enable_async: Some(enable), ..self }
    }
}


/// What the host reports about a path.
#[derive(Debug, Clone, Copy, PartialEq, Eq, Structural)]
pub enum PathKind {
    /// Nothing is there, or it cannot be inspected.
    Missing,
    /// A directory.
    Directory,
    /// Something that exists and is not a directory.
    Other,
}

/// One entry of a directory listing, in the order the host lists them.
#[derive(Debug, Clone)]
pub struct DirEntryInfo {
    /// The entry's file name, when it is valid Unicode.
    pub name: Option<String>,
    /// Whether the entry is a directory.
    pub is_dir: bool,
    /// Whether the entry holds a `site-packages` directory (the path
    /// returned by [`site_packages_dir`] for the listed directory and this
    /// name).
    pub has_site_packages: bool,
}

/// What the host reports for the paths that building a configuration
/// inspects.
///
/// `python_dir` answers for the path returned by
/// [`ChimeraConfigBuilder::python_dir_target`]; `venv_lib` and
/// `venv_lib_entries` for [`venv_lib_dir`] of the venv root returned by
/// [`ChimeraConfigBuilder::venv_root`].
#[derive(Debug)]
pub struct HostFacts {
    /// The current directory, or why it could not be read.
    pub current_dir: Result<String, String>,
    /// The `VIRTUAL_ENV` variable, when set and valid Unicode.
    pub virtual_env: Option<String>,
    pub python_dir: PathKind,
    pub venv_lib: PathKind,
    /// The listing of the venv's `lib` directory, or `None` when it cannot be read.
    pub venv_lib_entries: Option<Vec<DirEntryInfo>>,
}

/// The mathematical value of [`HostFacts`].
pub struct HostView {
    pub current_dir: Result<Seq<char>, Seq<char>>,
    pub virtual_env: Option<Seq<char>>,
    pub python_dir: PathKind,
    pub venv_lib: PathKind,
    pub venv_lib_entries: Option<Seq<DirEntryInfo>>,
}

/// The view of a string result.
pub open spec fn str_result_view(r: Result<String, String>) -> Result<Seq<char>, Seq<char>> {
    match r {
        Ok(s) => Ok(s@),
        Err(e) => Err(e@),
    }
}

impl View for HostFacts {
    type V = HostView;

    open spec fn view(&self) -> HostView {
        HostView {
            current_dir: str_result_view(self.current_dir),
            virtual_env: opt_str_view(self.virtual_env),
            python_dir: self.python_dir,
            venv_lib: self.venv_lib,
            venv_lib_entries: match self.venv_lib_entries {
                Some(v) => Some(v@),
                None => None,
            },
        }
    }
}

/// The view of a path result.
pub open spec fn path_result_view(r: Result<String, ConfigError>) -> Result<Seq<char>, ConfigErrorView> {
    match r {
        Ok(s) => Ok(s@),
        Err(e) => Err(e@),
    }
}

/// The view of an optional path result.
pub open spec fn opt_path_result_view(r: Result<Option<String>, ConfigError>) -> Result<
    Option<Seq<char>>,
    ConfigErrorView,
> {
    match r {
        Ok(o) => Ok(opt_str_view(o)),
        Err(e) => Err(e@),
    }
}

/// The view of a build result.
pub open spec fn build_result_view(r: Result<ChimeraConfig, ConfigError>) -> Result<ConfigView, ConfigErrorView> {
    match r {
        Ok(c) => Ok(c@),
        Err(e) => Err(e@),
    }
}

/// The error for a current directory that could not be read.
pub open spec fn spec_cwd_failure(e: Seq<char>) -> ConfigErrorView {
    ConfigErrorView::PathResolution("Failed to get current directory: "@ + e)
}

/// `path` made absolute against the current directory.
pub open spec fn spec_absolutize(path: Seq<char>, cwd: Result<Seq<char>, Seq<char>>) -> Result<Seq<char>, ConfigErrorView> {
    if spec_is_absolute(path) {
        Ok(path)
    } else {
        match cwd {
            Ok(c) => Ok(spec_join(c, path)),
            Err(e) => Err(spec_cwd_failure(e)),
        }
    }
}

/// The Python directory that a build inspects: the configured one, or
/// `python`, made absolute.
pub open spec fn spec_python_dir_target(b: BuilderView, cwd: Result<Seq<char>, Seq<char>>) -> Result<Seq<char>, ConfigErrorView> {
    spec_absolutize(
        match b.python_dir {
            Some(p) => p,
            None => "python"@,
        },
        cwd,
    )
}

/// The resolved Python directory: it must exist and be a directory.
pub open spec fn spec_resolve_python_dir(b: BuilderView, h: HostView) -> Result<Seq<char>, ConfigErrorView> {
    match spec_python_dir_target(b, h.current_dir) {
        Err(e) => Err(e),
        Ok(p) => match h.python_dir {
            PathKind::Missing => Err(ConfigErrorView::PythonDirNotFound(p)),
            PathKind::Other => Err(ConfigErrorView::PathResolution("Path is not a directory: "@ + p)),
            PathKind::Directory => Ok(p),
        },
    }
}

/// The venv root before it is made absolute: the configured one, else a
/// non-empty `VIRTUAL_ENV`, else none.
pub open spec fn spec_venv_root_choice(b: BuilderView, virtual_env: Option<Seq<char>>) -> Option<Seq<char>> {
    match b.venv_path {
        Some(p) => Some(p),
        None => match virtual_env {
            Some(v) => if v.len() > 0 {
                Some(v)
            } else {
                None
            },
            None => None,
        },
    }
}

/// The venv root, made absolute.
pub open spec fn spec_venv_root(
    b: BuilderView,
    cwd: Result<Seq<char>, Seq<char>>,
    virtual_env: Option<Seq<char>>,
) -> Result<Option<Seq<char>>, ConfigErrorView> {
    match spec_venv_root_choice(b, virtual_env) {
        None => Ok(None),
        Some(r) => match spec_absolutize(r, cwd) {
            Ok(a) => Ok(Some(a)),
            Err(e) => Err(e),
        },
    }
}

/// The prefix that names an interpreter directory under `lib`.
pub open spec fn python_prefix() -> Seq<char> {
    seq!['p', 'y', 't', 'h', 'o', 'n']
}

/// Whether `name` starts with `python`.
pub open spec fn spec_starts_with_python(name: Seq<char>) -> bool {
    name.len() >= python_prefix().len() && name.subrange(0, python_prefix().len() as int)
        == python_prefix()
}

/// Whether a listing entry is an interpreter directory holding a
/// `site-packages` directory: a match of `lib/python*/site-packages`.
pub open spec fn spec_is_python_entry(e: DirEntryInfo) -> bool {
    &&& e.name is Some
    &&& spec_starts_with_python(e.name->0@)
    &&& e.is_dir
    &&& e.has_site_packages
}

/// The name of the first interpreter directory in a listing that holds a
/// `site-packages` directory.
pub open spec fn spec_first_python_entry(entries: Seq<DirEntryInfo>) -> Option<Seq<char>>
    decreases entries.len(),
{
    if entries.len() == 0 {
        None
    } else if spec_is_python_entry(entries[0]) {
        Some(entries[0].name->0@)
    } else {
        spec_first_python_entry(entries.drop_first())
    }
}

/// The `lib` directory of a venv root.
pub open spec fn spec_venv_lib_dir(root: Seq<char>) -> Seq<char> {
    spec_join(root, "lib"@)
}

/// The `site-packages` directory under the entry `name` of the `lib` directory.
pub open spec fn spec_site_packages_dir(lib: Seq<char>, name: Seq<char>) -> Seq<char> {
    spec_join(spec_join(lib, name), "site-packages"@)
}

/// The first match of `lib/python*/site-packages` in listing order.
pub open spec fn spec_site_packages_candidate(lib: Seq<char>, entries: Seq<DirEntryInfo>) -> Option<Seq<char>> {
    match spec_first_python_entry(entries) {
        Some(n) => Some(spec_site_packages_dir(lib, n)),
        None => None,
    }
}

/// The resolved venv `site-packages` directory: none when no venv is
/// configured or detected, else the first match of
/// `<root>/lib/python*/site-packages`, which must exist.
pub open spec fn spec_resolve_venv(b: BuilderView, h: HostView) -> Result<Option<Seq<char>>, ConfigErrorView> {
    match spec_venv_root(b, h.current_dir, h.virtual_env) {
        Err(e) => Err(e),
        Ok(None) => Ok(None),
        Ok(Some(root)) => if h.venv_lib == PathKind::Missing {
            Err(ConfigErrorView::VenvInvalid(root))
        } else {
            match h.venv_lib_entries {
                None => Err(ConfigErrorView::VenvInvalid(root)),
                Some(entries) => match spec_site_packages_candidate(
                    spec_venv_lib_dir(root),
                    entries,
                ) {
                    Some(sp) => Ok(Some(sp)),
                    None => Err(ConfigErrorView::VenvInvalid(root)),
                },
            }
        },
    }
}

/// The result of building: the Python directory, then the venv, then the
/// worker counts are checked, in that order.
pub open spec fn spec_build(b: BuilderView, h: HostView) -> Result<ConfigView, ConfigErrorView> {
    match spec_resolve_python_dir(b, h) {
        Err(e) => Err(e),
        Ok(python_dir) => match spec_resolve_venv(b, h) {
            Err(e) => Err(e),
            Ok(venv_site_packages) => {
                let pool_workers: usize = match b.pool_workers {
                    Some(n) => n,
                    None => DEFAULT_WORKERS,
                };
                let dispatch_workers: usize = match b.dispatch_workers {
                    Some(n) => n,
                    None => DEFAULT_WORKERS,
                };
                if pool_workers == 0 {
                    Err(ConfigErrorView::InvalidWorkerCount("pool_workers must be at least 1"@))
                } else if dispatch_workers == 0 {
                    Err(
                        ConfigErrorView::InvalidWorkerCount("dispatch_workers must be at least 1"@),
                    )
                } else {
                    Ok(
                        ConfigView {
                            python_dir,
                            venv_site_packages,
                            modules: b.modules,
                            pool_workers,
                            dispatch_workers,
                            disable_signal_handler: b.disable_signal_handler,
                            enable_async: match b.enable_async {
                                Some(e) => e,
                                None => true,
                            },
                        },
                    )
                }
            },
        },
    }
}

/// `path` made absolute against the current directory.
fn absolutize(path: &str, cwd: &Result<String, String>) -> (res: Result<String, ConfigError>)
    ensures
        path_result_view(res) == spec_absolutize(path@, str_result_view(*cwd)),
{
    if is_absolute(path) {
        Ok(String::from_str(path))
    } else {
        match cwd {
            Ok(c) => Ok(join(c.as_str(), path)),
            Err(e) => Err(
                ConfigError::PathResolution(
                    String::from_str("Failed to get current directory: ").concat(e.as_str()),
                ),
            ),
        }
    }
}

/// Whether `name` starts with `python`.
pub fn starts_with_python(name: &str) -> (res: bool)
    ensures
        res == spec_starts_with_python(name@),
{
    let n: usize = name.unicode_len();
    if n < 6 {
        return false;
    }
    let ok = name.get_char(0) == 'p' && name.get_char(1) == 'y' && name.get_char(2) == 't'
        && name.get_char(3) == 'h' && name.get_char(4) == 'o' && name.get_char(5) == 'n';
    proof {
        if ok {
            assert(name@.subrange(0, 6) =~= python_prefix());
        } else {
            if name@.subrange(0, 6) == python_prefix() {
                assert(name@.subrange(0, 6)[0] == name@[0]);
                assert(name@.subrange(0, 6)[1] == name@[1]);
                assert(name@.subrange(0, 6)[2] == name@[2]);
                assert(name@.subrange(0, 6)[3] == name@[3]);
                assert(name@.subrange(0, 6)[4] == name@[4]);
                assert(name@.subrange(0, 6)[5] == name@[5]);
            }
        }
    }
    ok
}

/// The `lib` directory of a venv root.
pub fn venv_lib_dir(root: &str) -> (res: String)
    ensures
        res@ == spec_venv_lib_dir(root@),
{
    join(root, "lib")
}

proof fn lemma_first_python_entry_step(entries: Seq<DirEntryInfo>, i: int)
    requires
        0 <= i < entries.len(),
    ensures
        spec_first_python_entry(entries.subrange(i, entries.len() as int)) == (if spec_is_python_entry(
            entries[i],
        ) {
            Some(entries[i].name->0@)
        } else {
            spec_first_python_entry(entries.subrange(i + 1, entries.len() as int))
        }),
{
    let s = entries.subrange(i, entries.len() as int);
    assert(s.drop_first() =~= entries.subrange(i + 1, entries.len() as int));
    assert(s[0] == entries[i]);
}

/// The `site-packages` directory under the entry `name` of the `lib` directory.
pub fn site_packages_dir(lib: &str, name: &str) -> (res: String)
    ensures
        res@ == spec_site_packages_dir(lib@, name@),
{
    let dir = join(lib, name);
    join(dir.as_str(), "site-packages")
}

/// The first match of `lib/python*/site-packages` in listing order: the
/// `site-packages` directory of the first entry that is a directory, whose
/// name starts with `python`, and that holds a `site-packages` directory.
pub fn site_packages_candidate(lib: &str, entries: &Vec<DirEntryInfo>) -> (res: Option<String>)
    ensures
        opt_str_view(res) == spec_site_packages_candidate(lib@, entries@),
{
    let mut i: usize = 0;
    proof {
        assert(entries@.subrange(0, entries@.len() as int) =~= entries@);
    }
    while i < entries.len()
        invariant
            i <= entries.len(),
            spec_first_python_entry(entries@) == spec_first_python_entry(
                entries@.subrange(i as int, entries@.len() as int),
            ),
        decreases entries.len() - i,
    {
        proof {
            lemma_first_python_entry_step(entries@, i as int);
        }
        let e = &entries[i];
        match &e.name {
            Some(n) => {
                if e.is_dir && e.has_site_packages && starts_with_python(n.as_str()) {
                    return Some(site_packages_dir(lib, n.as_str()));
                }
            },
            None => {},
        }
        i = i + 1;
    }
    proof {
        assert(entries@.subrange(i as int, entries@.len() as int) =~= Seq::<DirEntryInfo>::empty());
    }
    None
}

impl ChimeraConfigBuilder {
    /// The Python directory that building inspects: the configured one, or
    /// `python`, made absolute against the current directory.
    pub fn python_dir_target(&self, current_dir: &Result<String, String>) -> (res: Result<String, ConfigError>)
        ensures
            path_result_view(res) == spec_python_dir_target(self@, str_result_view(*current_dir)),
    {
        match &self.python_dir {
            Some(p) => absolutize(p.as_str(), current_dir),
            None => absolutize("python", current_dir),
        }
    }

    /// The venv root that building inspects, made absolute: the configured
    /// one, else a non-empty `VIRTUAL_ENV`, else none.
    pub fn venv_root(&self, current_dir: &Result<String, String>, virtual_env: &Option<String>) -> (res:
        Result<Option<String>, ConfigError>)
        ensures
            opt_path_result_view(res) == spec_venv_root(
                self@,
                str_result_view(*current_dir),
                opt_str_view(*virtual_env),
            ),
    {
        let root: &str = match &self.venv_path {
            Some(p) => p.as_str(),
            None => match virtual_env {
                Some(v) => {
                    if v.as_str().unicode_len() > 0 {
                        v.as_str()
                    } else {
                        return Ok(None);
                    }
                },
                None => {
                    return Ok(None);
                },
            },
        };
        match absolutize(root, current_dir) {
            Ok(a) => Ok(Some(a)),
            Err(e) => Err(e),
        }
    }

    fn resolve_python_dir(&self, facts: &HostFacts) -> (res: Result<String, ConfigError>)
        ensures
            path_result_view(res) == spec_resolve_python_dir(self@, facts@),
    {
        let p = self.python_dir_target(&facts.current_dir)?;
        match facts.python_dir {
            PathKind::Missing => Err(ConfigError::PythonDirNotFound(p)),
            PathKind::Other => Err(
                ConfigError::PathResolution(
                    String::from_str("Path is not a directory: ").concat(p.as_str()),
                ),
            ),
            PathKind::Directory => Ok(p),
        }
    }

    /// The venv `site-packages` directory: none when no venv is configured
    /// or detected; else the first match of `<root>/lib/python*/site-packages`
    /// in listing order, or `VenvInvalid(root)` when there is none.
    pub fn resolve_venv_site_packages(&self, facts: &HostFacts) -> (res: Result<Option<String>, ConfigError>)
        ensures
            opt_path_result_view(res) == spec_resolve_venv(self@, facts@),
    {
        let root = match self.venv_root(&facts.current_dir, &facts.virtual_env)? {
            Some(r) => r,
            None => {
                return Ok(None);
            },
        };
        let lib = venv_lib_dir(root.as_str());
        if facts.venv_lib == PathKind::Missing {
            return Err(ConfigError::VenvInvalid(root));
        }
        match &facts.venv_lib_entries {
            None => Err(ConfigError::VenvInvalid(root)),
            Some(entries) => match site_packages_candidate(lib.as_str(), entries) {
                Some(sp) => Ok(Some(sp)),
                None => Err(ConfigError::VenvInvalid(root)),
            },
        }
    }

    /// Build the configuration, validating all settings against what the
    /// host reports: the Python directory must exist and be a directory; a
    /// configured or detected venv must hold a `lib/python*/site-packages`
    /// directory; both worker counts must be at least 1.
    pub fn build(self, facts: &HostFacts) -> (res: Result<ChimeraConfig, ConfigError>)
        ensures
            build_result_view(res) == spec_build(self@, facts@),
    {
        let python_dir = self.resolve_python_dir(facts)?;
        let venv_site_packages = self.resolve_venv_site_packages(facts)?;
        let pool_workers: usize = match self.pool_workers {
            Some(n) => n,
            None => DEFAULT_WORKERS,
        };
        if pool_workers == 0 {
            return Err(
                ConfigError::InvalidWorkerCount(String::from_str("pool_workers must be at least 1")),
            );
        }
        let dispatch_workers: usize = match self.dispatch_workers {
            Some(n) => n,
            None => DEFAULT_WORKERS,
        };
        if dispatch_workers == 0 {
            return Err(
                ConfigError::InvalidWorkerCount(
                    String::from_str("dispatch_workers must be at least 1"),
                ),
            );
        }
        Ok(
            ChimeraConfig {
                python_dir,
                venv_site_packages,
                modules: self.modules,
                pool_workers,
                dispatch_workers,
                disable_signal_handler: self.disable_signal_handler,
                enable_async: match self.enable_async {
                    Some(e) => e,
                    None => true,
                },
            },
        )
    }
}

} // verus!
