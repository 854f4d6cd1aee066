//! Configuration of an analysis.

use vstd::prelude::*;

verus! {

/// Configuration for the token analyzer.
#[derive(Debug, Clone)]
pub struct AnalyzerConfig {
    /// Maximum number of files to scan (0 = unlimited)
    pub max_files: usize,
    /// Maximum file size in bytes to scan (skip larger files)
    pub max_file_size: u64,
    /// Timeout for the entire analysis in milliseconds (0 = no timeout)
    pub timeout_ms: u64,
    /// Whether to follow symbolic links
    pub follow_symlinks: bool,
    /// Whether to include hidden files
    pub include_hidden: bool,
    /// File extensions to scan (empty = use defaults)
    pub extensions: Vec<String>,
    /// Additional directories to ignore
    pub ignore_dirs: Vec<String>,
    /// Number of threads to use (0 = auto)
    pub num_threads: usize,
}

/// The directories that a default configuration skips.
pub open spec fn default_ignore_dirs() -> Seq<Seq<char>> {
    seq![
        "node_modules"@,
        "target"@,
        ".git"@,
        "__pycache__"@,
        "venv"@,
        ".venv"@,
        "dist"@,
        "build"@,
        ".cache"@,
    ]
}

/// The extensions scanned when the configuration names none.
pub open spec fn default_extension_list() -> Seq<&'static str> {
    seq![
        "py",
        "js",
        "ts",
        "jsx",
        "tsx",
        "rs",
        "go",
        "rb",
        "java",
        "kt",
        "swift",
        "c",
        "cpp",
        "h",
        "hpp",
        "cs",
        "php",
        "sh",
        "bash",
        "zsh",
        "fish",
        "yaml",
        "yml",
        "json",
        "toml",
        "env",
        "conf",
        "cfg",
        "ini",
        "md",
        "txt",
        "sql",
        "graphql",
        "prisma",
    ]
}

impl AnalyzerConfig {
    /// The settings that every preset shares with the default: no symbolic
    /// links followed, no extensions named, the default ignored directories,
    /// and the thread count chosen automatically.
    pub open spec fn shares_default_lists(&self) -> bool {
        &&& !self.follow_symlinks
        &&& self.extensions@.len() == 0
        &&& self.ignore_dirs.deep_view() == default_ignore_dirs()
        &&& self.num_threads == 0
    }

    /// Creates a fast config for quick scans.
    pub fn fast() -> (c: Self)
        ensures
            c.max_files == 1_000,
            c.max_file_size == 1024 * 1024,
            c.timeout_ms == 5_000,
            !c.include_hidden,
            c.shares_default_lists(),
    {
        let mut c = Self::default();
        c.max_files = 1_000;
        c.max_file_size = 1024 * 1024;
        c.timeout_ms = 5_000;
        c
    }

    /// Creates a thorough config for complete scans.
    pub fn thorough() -> (c: Self)
        ensures
            c.max_files == 0,
            c.max_file_size == 50 * 1024 * 1024,
            c.timeout_ms == 120_000,
            c.include_hidden,
            c.shares_default_lists(),
    {
        let mut c = Self::default();
        c.max_files = 0;
        c.max_file_size = 50 * 1024 * 1024;
        c.timeout_ms = 120_000;
        c.include_hidden = true;
        c
    }

    /// Get default extensions for code files.
    pub fn default_extensions() -> (v: Vec<&'static str>)
        ensures
            v@ == default_extension_list(),
    {
        let v = vec![
            "py",
            "js",
            "ts",
            "jsx",
            "tsx",
            "rs",
            "go",
            "rb",
            "java",
            "kt",
            "swift",
            "c",
            "cpp",
            "h",
            "hpp",
            "cs",
            "php",
            "sh",
            "bash",
            "zsh",
            "fish",
            "yaml",
            "yml",
            "json",
            "toml",
            "env",
            "conf",
            "cfg",
            "ini",
            "md",
            "txt",
            "sql",
            "graphql",
            "prisma",
        ];
        assert(v@ =~= default_extension_list());
        v
    }
}

impl Default for AnalyzerConfig {
    fn default() -> (c: Self)
        ensures
            c.max_files == 10_000,
            c.max_file_size == 10 * 1024 * 1024,
            c.timeout_ms == 30_000,
            !c.include_hidden,
            c.shares_default_lists(),
    {
        let ignore_dirs = vec![
            "node_modules".to_owned(),
            "target".to_owned(),
            ".git".to_owned(),
            "__pycache__".to_owned(),
            "venv".to_owned(),
            ".venv".to_owned(),
            "dist".to_owned(),
            "build".to_owned(),
            ".cache".to_owned(),
        ];
        assert(ignore_dirs.deep_view() =~= default_ignore_dirs());
        AnalyzerConfig {
            max_files: 10_000,
            max_file_size: 10 * 1024 * 1024,
            timeout_ms: 30_000,
            follow_symlinks: false,
            include_hidden: false,
            extensions: Vec::new(),
            ignore_dirs,
            num_threads: 0,
        }
    }
}

} // verus!
