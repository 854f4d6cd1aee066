//! The analyzer: validating a request, choosing the files to scan, building
//! the patterns, and putting the findings together into a report.

use vstd::prelude::*;
use crate::config::{default_extension_list, AnalyzerConfig};
use crate::paths::{components_of, extension_of, path_components, path_extension};
use crate::pattern::{compile_regex, escaped, regex_compiles, regex_error_text, regex_escape};
use crate::report::{
    critical, exposed, file_records, is_critical, is_exposed, lemma_filter_push, lemma_take_push,
    sum_calls, sum_scores, totals_agree, AnalysisReport, FileAnalysis, FileRecord,
};
use crate::risk::{critical_name, is_critical_name, lower_file_name, lower_file_name_of, RiskLevel};
use crate::scan::{file_analysis_of, try_analyze_file, AnalysisPatterns};
use crate::text::{lowercase, str_equal, to_lowercase};

verus! {

// ---------------------------------------------------------------------------
// Errors
// ---------------------------------------------------------------------------

/// Why an analysis could not run.
#[derive(Debug, Clone)]
pub enum AnalyzerError {
    /// The token name is empty.
    EmptyToken,
    /// The directory to search does not exist (it holds the directory).
    MissingDirectory(String),
    /// The token pattern does not compile (it holds the regex error).
    TokenPattern(String),
    /// The exposure pattern does not compile (it holds the regex error).
    ExposurePattern(String),
}

/// The mathematical form of an [`AnalyzerError`].
pub enum AnalyzerErrorKind {
    EmptyToken,
    MissingDirectory(Seq<char>),
    TokenPattern(Seq<char>),
    ExposurePattern(Seq<char>),
}

impl View for AnalyzerError {
    type V = AnalyzerErrorKind;

    open spec fn view(&self) -> AnalyzerErrorKind {
        match self {
            AnalyzerError::EmptyToken => AnalyzerErrorKind::EmptyToken,
            AnalyzerError::MissingDirectory(d) => AnalyzerErrorKind::MissingDirectory(d@),
            AnalyzerError::TokenPattern(e) => AnalyzerErrorKind::TokenPattern(e@),
            AnalyzerError::ExposurePattern(e) => AnalyzerErrorKind::ExposurePattern(e@),
        }
    }
}

/// The message that an error is reported with.
pub open spec fn error_message(e: AnalyzerErrorKind) -> Seq<char> {
    match e {
        AnalyzerErrorKind::EmptyToken => "Token name cannot be empty"@,
        AnalyzerErrorKind::MissingDirectory(d) => "Search directory does not exist: "@ + d,
        AnalyzerErrorKind::TokenPattern(m) => "Failed to build token regex: "@ + m,
        AnalyzerErrorKind::ExposurePattern(m) => "Failed to build exposure regex: "@ + m,
    }
}

impl AnalyzerError {
    /// The message that this error is reported with.
    pub fn message(&self) -> (s: String)
        ensures
            s@ == error_message(self@),
    {
        match self {
            AnalyzerError::EmptyToken => "Token name cannot be empty".to_owned(),
            AnalyzerError::MissingDirectory(d) => {
                let mut s = "Search directory does not exist: ".to_owned();
                s.append(d.as_str());
                s
            },
            AnalyzerError::TokenPattern(m) => {
                let mut s = "Failed to build token regex: ".to_owned();
                s.append(m.as_str());
                s
            },
            AnalyzerError::ExposurePattern(m) => {
                let mut s = "Failed to build exposure regex: ".to_owned();
                s.append(m.as_str());
                s
            },
        }
    }
}

// ---------------------------------------------------------------------------
// Patterns
// ---------------------------------------------------------------------------

/// The pattern that matches the token as a whole word.
pub open spec fn token_pattern_text(e: Seq<char>) -> Seq<char> {
    r"\b"@ + e + r"\b"@
}

/// The exposure patterns, joined by `|`: a hardcoded assignment, a
/// dictionary entry with a literal value, print, console, logging and write
/// calls, and format strings, each mentioning the token.
pub open spec fn exposure_pattern_text(e: Seq<char>) -> Seq<char> {
    r"\b"@ + e + r#"\b\s*=\s*["'][^"']+["']"#@ + "|"@ + r#"["']"#@ + e
        + r#"\s*["']\s*:\s*["'][^"']+["']"#@ + "|"@
        + r"(?i)(print|println!?|printf|echo|puts)\s*[\(\[].*\b"@ + e + r"\b"@ + "|"@
        + r"(?i)console\.(log|info|warn|error|debug)\s*\(.*\b"@ + e + r"\b"@ + "|"@
        + r"(?i)(logging\.|logger\.)(info|debug|warning|error|critical)\s*\(.*\b"@ + e
        + r"\b"@ + "|"@ + r"(?i)(log::)?(info!|debug!|warn!|error!|trace!)\s*\(.*\b"@ + e
        + r"\b"@ + "|"@ + r"(?i)\blog\s*[\(\[].*\b"@ + e + r"\b"@ + "|"@
        + r"(?i)(stdout|stderr|write|writeln!?)\s*[\(\[].*\b"@ + e + r"\b"@ + "|"@
        + r#"(?i)f["'].*\b"#@ + e + r"\b"@ + "|"@ + r"(?i)format!\s*\(.*\b"@ + e + r"\b"@
}

/// What building the patterns for a token gives: the compiled patterns, or
/// the error of the first pattern that does not compile.
pub open spec fn patterns_outcome_ok(token: Seq<char>) -> bool {
    regex_compiles(token_pattern_text(escaped(token))) && regex_compiles(
        exposure_pattern_text(escaped(token)),
    )
}

/// The error of building the patterns for a token, where it fails.
pub open spec fn patterns_error(token: Seq<char>) -> AnalyzerErrorKind {
    if !regex_compiles(token_pattern_text(escaped(token))) {
        AnalyzerErrorKind::TokenPattern(regex_error_text(token_pattern_text(escaped(token))))
    } else {
        AnalyzerErrorKind::ExposurePattern(regex_error_text(exposure_pattern_text(escaped(token))))
    }
}

fn token_pattern_string(e: &str) -> (s: String)
    ensures
        s@ == token_pattern_text(e@),
{
    let mut s = r"\b".to_owned();
    s.append(e);
    s.append(r"\b");
    s
}

fn exposure_pattern_string(e: &str) -> (s: String)
    ensures
        s@ == exposure_pattern_text(e@),
{
    let mut s = r"\b".to_owned();
    s.append(e);
    s.append(r#"\b\s*=\s*["'][^"']+["']"#);
    s.append("|");
    s.append(r#"["']"#);
    s.append(e);
    s.append(r#"\s*["']\s*:\s*["'][^"']+["']"#);
    s.append("|");
    s.append(r"(?i)(print|println!?|printf|echo|puts)\s*[\(\[].*\b");
    s.append(e);
    s.append(r"\b");
    s.append("|");
    s.append(r"(?i)console\.(log|info|warn|error|debug)\s*\(.*\b");
    s.append(e);
    s.append(r"\b");
    s.append("|");
    s.append(r"(?i)(logging\.|logger\.)(info|debug|warning|error|critical)\s*\(.*\b");
    s.append(e);
    s.append(r"\b");
    s.append("|");
    s.append(r"(?i)(log::)?(info!|debug!|warn!|error!|trace!)\s*\(.*\b");
    s.append(e);
    s.append(r"\b");
    s.append("|");
    s.append(r"(?i)\blog\s*[\(\[].*\b");
    s.append(e);
    s.append(r"\b");
    s.append("|");
    s.append(r"(?i)(stdout|stderr|write|writeln!?)\s*[\(\[].*\b");
    s.append(e);
    s.append(r"\b");
    s.append("|");
    s.append(r#"(?i)f["'].*\b"#);
    s.append(e);
    s.append(r"\b");
    s.append("|");
    s.append(r"(?i)format!\s*\(.*\b");
    s.append(e);
    s.append(r"\b");
    s
}

// ---------------------------------------------------------------------------
// Choosing files
// ---------------------------------------------------------------------------

/// An entry that the directory walk produced.
#[derive(Debug, Clone)]
pub struct WalkEntry {
    /// The entry's path.
    pub path: String,
    /// Whether it is a directory.
    pub is_dir: bool,
    /// Its size in bytes, where its metadata could be read.
    pub size: Option<u64>,
}

/// What to do with an entry of the directory walk.
#[derive(Debug, Clone, Copy, PartialEq, Eq, Structural)]
pub enum WalkAction {
    /// End the walk.
    Stop,
    /// Pass over this entry.
    Skip,
    /// Scan this file.
    Take,
}

/// The extensions that a configuration scans.
pub open spec fn scan_extensions(c: AnalyzerConfig) -> Seq<Seq<char>> {
    if c.extensions@.len() == 0 {
        default_extension_list().map_values(|s: &str| s@)
    } else {
        c.extensions.deep_view()
    }
}

/// A path component that names an ignored directory.
pub open spec fn component_ignored(dirs: Seq<Seq<char>>, c: Option<Seq<char>>) -> bool {
    match c {
        Some(name) => dirs.contains(name),
        None => false,
    }
}

/// Some normal component of the path names an ignored directory.
pub open spec fn ignored_path(dirs: Seq<Seq<char>>, path: Seq<char>) -> bool {
    exists|i: int|
        0 <= i < path_components(path).len() && #[trigger] component_ignored(
            dirs,
            path_components(path)[i],
        )
}

/// The time limit has passed.
pub open spec fn timed_out(c: AnalyzerConfig, elapsed_ms: u64) -> bool {
    c.timeout_ms > 0 && elapsed_ms >= c.timeout_ms
}

/// A file that the scan wants: not a directory, not under an ignored
/// directory, a secrets file or one with a scanned extension, and not larger
/// than the size limit.
pub open spec fn wanted_file(c: AnalyzerConfig, e: WalkEntry) -> bool {
    &&& !e.is_dir
    &&& !ignored_path(c.ignore_dirs.deep_view(), e.path@)
    &&& (is_critical_name(lower_file_name(e.path@)) || (path_extension(e.path@) matches Some(x)
        && scan_extensions(c).contains(lowercase(x))))
    &&& !(e.size matches Some(sz) && sz > c.max_file_size)
}

/// The decision for the next entry of the walk: stop once the time limit has
/// passed or the file limit is reached; pass over an unreadable entry and
/// any file that is not wanted; take the others.
pub open spec fn walk_decision(
    c: AnalyzerConfig,
    collected: usize,
    elapsed_ms: u64,
    entry: Option<WalkEntry>,
) -> WalkAction {
    if timed_out(c, elapsed_ms) {
        WalkAction::Stop
    } else if c.max_files > 0 && collected >= c.max_files {
        WalkAction::Stop
    } else {
        match entry {
            Some(e) => if wanted_file(c, e) {
                WalkAction::Take
            } else {
                WalkAction::Skip
            },
            None => WalkAction::Skip,
        }
    }
}

// ---------------------------------------------------------------------------
// Reports
// ---------------------------------------------------------------------------

/// The report over the analyzed files: totals that agree with them, the
/// given name, directory, scan count and duration, truncated where the file
/// limit was reached, and no errors.
pub open spec fn is_report_of(
    c: AnalyzerConfig,
    r: AnalysisReport,
    token_name: Seq<char>,
    search_dir: Seq<char>,
    files_scanned: usize,
    results: Seq<FileRecord>,
    duration_nanos: u128,
) -> bool {
    &&& r@.token_name == token_name
    &&& r@.search_dir == search_dir
    &&& r@.files == results
    &&& totals_agree(r@)
    &&& r@.duration_nanos == duration_nanos
    &&& r@.files_scanned == files_scanned
    &&& r@.truncated == (c.max_files > 0 && files_scanned >= c.max_files)
    &&& r@.errors == Seq::<Seq<char>>::empty()
}

/// The totals over the files fit in a `usize`.
pub open spec fn totals_fit(results: Seq<FileRecord>) -> bool {
    sum_calls(results) <= usize::MAX && sum_scores(results) <= usize::MAX
}

// ---------------------------------------------------------------------------
// An analysis of files held in memory
// ---------------------------------------------------------------------------

/// A walk entry together with the text of the file, where it could be read.
#[derive(Debug, Clone)]
pub struct SourceFile {
    /// The walk entry.
    pub entry: WalkEntry,
    /// The file's text, `None` where it could not be read.
    pub content: Option<String>,
}

/// The indices of the sources that the walk takes, from source `k` on, with
/// `taken` taken before; no time passes.
pub open spec fn walk_from(c: AnalyzerConfig, sources: Seq<SourceFile>, k: int, taken: Seq<int>) -> Seq<int>
    decreases sources.len() - k,
{
    if k < 0 || k >= sources.len() {
        taken
    } else {
        match walk_decision(c, taken.len() as usize, 0, Some(sources[k].entry)) {
            WalkAction::Stop => taken,
            WalkAction::Skip => walk_from(c, sources, k + 1, taken),
            WalkAction::Take => walk_from(c, sources, k + 1, taken.push(k)),
        }
    }
}

/// The indices of the sources that the walk takes.
pub open spec fn walked(c: AnalyzerConfig, sources: Seq<SourceFile>) -> Seq<int> {
    walk_from(c, sources, 0, Seq::empty())
}

/// The findings over the taken sources from the `k`-th on, with `acc` found
/// before: readable files whose token count is not zero, in order; `None`
/// where the analysis of a file panics.
pub open spec fn results_from(
    sources: Seq<SourceFile>,
    taken: Seq<int>,
    k: int,
    token: Seq<char>,
    exposure: Seq<char>,
    high: Seq<Seq<char>>,
    acc: Seq<FileRecord>,
) -> Option<Seq<FileRecord>>
    decreases taken.len() - k,
{
    if k < 0 || k >= taken.len() {
        Some(acc)
    } else {
        let src = sources[taken[k]];
        match src.content {
            Some(text) => match file_analysis_of(src.entry.path@, text@, token, exposure, high) {
                Some(fr) => results_from(
                    sources,
                    taken,
                    k + 1,
                    token,
                    exposure,
                    high,
                    if fr.call_count > 0 {
                        acc.push(fr)
                    } else {
                        acc
                    },
                ),
                None => None,
            },
            None => results_from(sources, taken, k + 1, token, exposure, high, acc),
        }
    }
}

/// The findings over the files that the walk takes.
pub open spec fn analyzed(
    c: AnalyzerConfig,
    sources: Seq<SourceFile>,
    token_name: Seq<char>,
    high: Seq<Seq<char>>,
) -> Option<Seq<FileRecord>> {
    results_from(
        sources,
        walked(c, sources),
        0,
        token_pattern_text(escaped(token_name)),
        exposure_pattern_text(escaped(token_name)),
        high,
        Seq::empty(),
    )
}

/// An in-memory analysis ends without a panic: where the request is valid
/// and the patterns compile, no file's analysis panics and the totals fit.
pub open spec fn analysis_completes(
    c: AnalyzerConfig,
    token_name: Seq<char>,
    dir_exists: bool,
    sources: Seq<SourceFile>,
    high: Seq<Seq<char>>,
) -> bool {
    (token_name.len() > 0 && dir_exists && patterns_outcome_ok(token_name)) ==> (analyzed(
        c,
        sources,
        token_name,
        high,
    ) matches Some(rs) && totals_fit(rs))
}

/// What an in-memory analysis gives on a request it completes: the request's
/// error, else the patterns' error, else the report over the taken files.
pub open spec fn analysis_result_ok(
    c: AnalyzerConfig,
    r: Result<AnalysisReport, AnalyzerError>,
    token_name: Seq<char>,
    search_dir: Seq<char>,
    dir_exists: bool,
    sources: Seq<SourceFile>,
    high: Seq<Seq<char>>,
) -> bool {
    if token_name.len() == 0 {
        r matches Err(e) && e@ == AnalyzerErrorKind::EmptyToken
    } else if !dir_exists {
        r matches Err(e) && e@ == AnalyzerErrorKind::MissingDirectory(search_dir)
    } else if !patterns_outcome_ok(token_name) {
        r matches Err(e) && e@ == patterns_error(token_name)
    } else {
        r matches Ok(rep) && is_report_of(
            c,
            rep,
            token_name,
            search_dir,
            walked(c, sources).len() as usize,
            analyzed(c, sources, token_name, high)->0,
            0,
        )
    }
}

// ---------------------------------------------------------------------------
// The analyzer
// ---------------------------------------------------------------------------

/// Token Security Analyzer: scans file texts for token usage and identifies
/// security risks.
pub struct TokenSecurityAnalyzer {
    config: AnalyzerConfig,
}

impl View for TokenSecurityAnalyzer {
    type V = AnalyzerConfig;

    /// The configuration.
    closed spec fn view(&self) -> AnalyzerConfig {
        self.config
    }
}

impl TokenSecurityAnalyzer {
    /// Creates a new analyzer with the given configuration.
    pub fn new(config: AnalyzerConfig) -> (a: Self)
        ensures
            a@ == config,
    {
        TokenSecurityAnalyzer { config }
    }

    /// Creates an analyzer with default configuration.
    pub fn default_analyzer() -> (a: Self)
        ensures
            a@.max_files == 10_000,
            a@.max_file_size == 10 * 1024 * 1024,
            a@.timeout_ms == 30_000,
            !a@.include_hidden,
            a@.shares_default_lists(),
    {
        Self::new(AnalyzerConfig::default())
    }

    /// The configuration.
    pub fn config(&self) -> (c: &AnalyzerConfig)
        ensures
            *c == self@,
    {
        &self.config
    }

    /// Checks the request: the token name must not be empty and the
    /// directory must exist.
    pub fn check_request(&self, token_name: &str, search_dir: &str, dir_exists: bool) -> (r: Result<
        (),
        AnalyzerError,
    >)
        ensures
            r is Ok <==> (token_name@.len() > 0 && dir_exists),
            r matches Err(e) ==> e@ == if token_name@.len() == 0 {
                AnalyzerErrorKind::EmptyToken
            } else {
                AnalyzerErrorKind::MissingDirectory(search_dir@)
            },
    {
        if token_name.is_empty() {
            return Err(AnalyzerError::EmptyToken);
        }
        if !dir_exists {
            return Err(AnalyzerError::MissingDirectory(search_dir.to_owned()));
        }
        Ok(())
    }

    /// Whether the time limit has passed after `elapsed_ms` milliseconds.
    pub fn is_timed_out(&self, elapsed_ms: u64) -> (b: bool)
        ensures
            b == timed_out(self@, elapsed_ms),
    {
        self.config.timeout_ms > 0 && elapsed_ms >= self.config.timeout_ms
    }

    /// Checks if a path is in an ignored directory.
    pub fn is_ignored_dir(&self, path: &str) -> (b: bool)
        ensures
            b == ignored_path(self@.ignore_dirs.deep_view(), path@),
    {
        let comps = components_of(path);
        let ghost dirs = self.config.ignore_dirs.deep_view();
        let n = comps.len();
        for i in 0..n
            invariant
                n == comps@.len(),
                comps.deep_view() == path_components(path@),
                dirs == self@.ignore_dirs.deep_view(),
                forall|j: int| 0 <= j < i ==> !component_ignored(dirs, #[trigger] path_components(path@)[j]),
        {
            assert(comps.deep_view()[i as int] == comps[i as int].deep_view());
            match &comps[i] {
                Some(name) => {
                    if self.listed_dir(name.as_str()) {
                        assert(component_ignored(dirs, path_components(path@)[i as int]));
                        return true;
                    }
                },
                None => {},
            }
        }
        false
    }

    /// Whether `name` is one of the ignored directories.
    fn listed_dir(&self, name: &str) -> (b: bool)
        ensures
            b == self@.ignore_dirs.deep_view().contains(name@),
    {
        let dirs = &self.config.ignore_dirs;
        let n = dirs.len();
        for i in 0..n
            invariant
                n == dirs@.len(),
                *dirs == self@.ignore_dirs,
                forall|j: int| 0 <= j < i ==> dirs.deep_view()[j] != name@,
        {
            if str_equal(dirs[i].as_str(), name) {
                assert(self@.ignore_dirs.deep_view()[i as int] == name@);
                assert(self@.ignore_dirs.deep_view().contains(name@));
                return true;
            }
        }
        false
    }

    /// Whether the lower-cased extension is one that the configuration scans.
    fn scans_extension(&self, ext: &str) -> (b: bool)
        ensures
            b == scan_extensions(self@).contains(ext@),
    {
        if self.config.extensions.len() == 0 {
            let exts = AnalyzerConfig::default_extensions();
            let ghost views = default_extension_list().map_values(|s: &str| s@);
            let n = exts.len();
            for i in 0..n
                invariant
                    n == exts@.len(),
                    self@.extensions@.len() == 0,
                    exts@ == default_extension_list(),
                    views == default_extension_list().map_values(|s: &str| s@),
                    forall|j: int| 0 <= j < i ==> views[j] != ext@,
            {
                if str_equal(exts[i], ext) {
                    assert(scan_extensions(self@)[i as int] == ext@);
                    assert(scan_extensions(self@).contains(ext@));
                    return true;
                }
            }
            false
        } else {
            let exts = &self.config.extensions;
            let n = exts.len();
            for i in 0..n
                invariant
                    n == exts@.len(),
                    *exts == self@.extensions,
                    self.config.extensions@.len() > 0,
                    forall|j: int| 0 <= j < i ==> exts.deep_view()[j] != ext@,
            {
                if str_equal(exts[i].as_str(), ext) {
                    assert(scan_extensions(self@)[i as int] == ext@);
                    assert(scan_extensions(self@).contains(ext@));
                    return true;
                }
            }
            false
        }
    }

    /// Whether the scan wants the file of a walk entry.
    fn wants(&self, e: &WalkEntry) -> (b: bool)
        ensures
            b == wanted_file(self@, *e),
    {
        if e.is_dir {
            return false;
        }
        if self.is_ignored_dir(e.path.as_str()) {
            return false;
        }
        let name = lower_file_name_of(e.path.as_str());
        if !critical_name(name.as_str()) {
            match extension_of(e.path.as_str()) {
                Some(ext) => {
                    let lower = to_lowercase(ext.as_str());
                    if !self.scans_extension(lower.as_str()) {
                        return false;
                    }
                },
                None => {
                    return false;
                },
            }
        }
        match e.size {
            Some(sz) => sz <= self.config.max_file_size,
            None => true,
        }
    }

    /// Decides what to do with the next entry of the directory walk, given
    /// how many files have been taken and how much time has passed.
    pub fn walk_step(&self, collected: usize, elapsed_ms: u64, entry: Option<&WalkEntry>) -> (a:
        WalkAction)
        ensures
            a == walk_decision(
                self@,
                collected,
                elapsed_ms,
                match entry {
                    Some(e) => Some(*e),
                    None => None,
                },
            ),
    {
        if self.is_timed_out(elapsed_ms) {
            return WalkAction::Stop;
        }
        if self.config.max_files > 0 && collected >= self.config.max_files {
            return WalkAction::Stop;
        }
        match entry {
            Some(e) => if self.wants(e) {
                WalkAction::Take
            } else {
                WalkAction::Skip
            },
            None => WalkAction::Skip,
        }
    }

    /// Builds the patterns for a token: the token as a whole word, and the
    /// exposure patterns; both with the token's regex meta characters escaped.
    pub fn build_patterns(&self, token_name: &str) -> (r: Result<AnalysisPatterns, AnalyzerError>)
        ensures
            r is Ok <==> patterns_outcome_ok(token_name@),
            r matches Ok(p) ==> {
                &&& p.token_pattern() == token_pattern_text(escaped(token_name@))
                &&& p.exposure_pattern() == exposure_pattern_text(escaped(token_name@))
            },
            r matches Err(e) ==> e@ == patterns_error(token_name@),
    {
        let esc = regex_escape(token_name);
        let token_text = token_pattern_string(esc.as_str());
        let token = match compile_regex(token_text.as_str()) {
            Ok(t) => t,
            Err(m) => {
                return Err(AnalyzerError::TokenPattern(m));
            },
        };
        let exposure_text = exposure_pattern_string(esc.as_str());
        let exposure = match compile_regex(exposure_text.as_str()) {
            Ok(x) => x,
            Err(m) => {
                return Err(AnalyzerError::ExposurePattern(m));
            },
        };
        Ok(AnalysisPatterns::new(token, exposure))
    }

    /// The indices of the sources that the walk takes.
    fn walk_sources(&self, sources: &Vec<SourceFile>) -> (r: Vec<usize>)
        ensures
            r@.map_values(|i: usize| i as int) == walked(self@, sources@),
            forall|k: int| 0 <= k < r@.len() ==> #[trigger] r@[k] < sources@.len(),
    {
        let mut taken: Vec<usize> = Vec::new();
        let n = sources.len();
        let mut k: usize = 0;
        assert(taken@.map_values(|i: usize| i as int) =~= Seq::<int>::empty());
        while k < n
            invariant
                n == sources@.len(),
                k <= n,
                walked(self@, sources@) == walk_from(self@, sources@, k as int, taken@.map_values(|i: usize| i as int)),
                forall|j: int| 0 <= j < taken@.len() ==> #[trigger] taken@[j] < n,
            decreases n - k,
        {
            let ghost tv = taken@.map_values(|i: usize| i as int);
            match self.walk_step(taken.len(), 0, Some(&sources[k].entry)) {
                WalkAction::Stop => {
                    return taken;
                },
                WalkAction::Skip => {},
                WalkAction::Take => {
                    taken.push(k);
                    assert(taken@.map_values(|i: usize| i as int) =~= tv.push(k as int));
                },
            }
            k = k + 1;
        }
        taken
    }

    /// Analyzes token usage in files held in memory: checks the request,
    /// walks the sources as the directory walk would (no time passes, so the
    /// time limit never ends it), builds the patterns, analyzes each taken
    /// file that could be read, keeps those where the token occurs, and
    /// reports over them with a duration of 0. `None` where the analysis
    /// cannot complete: a count overflows or a cut splits a character.
    pub fn try_analyze(
        &self,
        token_name: &str,
        search_dir: &str,
        dir_exists: bool,
        sources: &Vec<SourceFile>,
        high_entropy_values: &Vec<String>,
    ) -> (r: Option<Result<AnalysisReport, AnalyzerError>>)
        ensures
            r is None <==> !analysis_completes(self@, token_name@, dir_exists, sources@, high_entropy_values.deep_view()),
            r matches Some(res) ==> analysis_result_ok(self@, res, token_name@, search_dir@, dir_exists, sources@, high_entropy_values.deep_view()),
    {
        match self.check_request(token_name, search_dir, dir_exists) {
            Err(e) => {
                return Some(Err(e));
            },
            Ok(()) => {},
        }
        let taken = self.walk_sources(sources);
        let patterns = match self.build_patterns(token_name) {
            Err(e) => {
                return Some(Err(e));
            },
            Ok(p) => p,
        };
        let ghost tv = taken@.map_values(|i: usize| i as int);
        let ghost tp = token_pattern_text(escaped(token_name@));
        let ghost ep = exposure_pattern_text(escaped(token_name@));
        let ghost high = high_entropy_values.deep_view();
        let mut results: Vec<FileAnalysis> = Vec::new();
        let n = taken.len();
        assert(file_records(results@) =~= Seq::<FileRecord>::empty());
        for k in 0..n
            invariant
                n == taken@.len(),
                tv == taken@.map_values(|i: usize| i as int),
                tv == walked(self@, sources@),
                forall|j: int| 0 <= j < taken@.len() ==> #[trigger] taken@[j] < sources@.len(),
                patterns.token_pattern() == tp,
                patterns.exposure_pattern() == ep,
                high == high_entropy_values.deep_view(),
                token_name@.len() > 0,
                dir_exists,
                patterns_outcome_ok(token_name@),
                analyzed(self@, sources@, token_name@, high) == results_from(sources@, tv, k as int, tp, ep, high, file_records(results@)),
        {
            let idx = taken[k];
            assert(tv[k as int] == idx as int);
            let src = &sources[idx];
            match &src.content {
                Some(text) => {
                    match try_analyze_file(src.entry.path.as_str(), text.as_str(), &patterns, high_entropy_values) {
                        Some(fa) => {
                            if fa.call_count > 0 {
                                let ghost before = file_records(results@);
                                results.push(fa);
                                assert(file_records(results@) =~= before.push(fa@));
                            }
                        },
                        None => {
                            assert(sources@[tv[k as int]] == *src);
                            assert(results_from(sources@, tv, k as int, tp, ep, high, file_records(results@)) is None);
                            return None;
                        },
                    }
                },
                None => {},
            }
        }
        if !Self::totals_fit(&results) {
            return None;
        }
        let report = self.build_report(token_name, search_dir, n, results, 0);
        Some(Ok(report))
    }

    /// Analyzes token usage in files held in memory, on an input where the
    /// analysis completes; see [`TokenSecurityAnalyzer::try_analyze`].
    pub fn analyze(
        &self,
        token_name: &str,
        search_dir: &str,
        dir_exists: bool,
        sources: &Vec<SourceFile>,
        high_entropy_values: &Vec<String>,
    ) -> (r: Result<AnalysisReport, AnalyzerError>)
        requires
            analysis_completes(self@, token_name@, dir_exists, sources@, high_entropy_values.deep_view()),
        ensures
            analysis_result_ok(self@, r, token_name@, search_dir@, dir_exists, sources@, high_entropy_values.deep_view()),
    {
        match self.try_analyze(token_name, search_dir, dir_exists, sources, high_entropy_values) {
            Some(r) => r,
            None => {
                proof {
                    assert(false);
                }
                Err(AnalyzerError::EmptyToken)
            },
        }
    }

    /// Whether the totals of a report over these files fit in a `usize`.
    pub fn totals_fit(results: &Vec<FileAnalysis>) -> (b: bool)
        ensures
            b == totals_fit(file_records(results@)),
    {
        let ghost fs = file_records(results@);
        let n = results.len();
        let mut calls: usize = 0;
        let mut scores: usize = 0;
        for i in 0..n
            invariant
                n == results@.len(),
                fs == file_records(results@),
                calls == sum_calls(fs.take(i as int)),
                scores == sum_scores(fs.take(i as int)),
        {
            proof {
                lemma_take_push(fs, i as int);
            }
            assert(fs[i as int] == results@[i as int]@);
            let c = results[i].call_count;
            let s = results[i].risk_score;
            if calls > usize::MAX - c || scores > usize::MAX - s {
                proof {
                    lemma_sums_grow(fs, i as int + 1, n as int);
                    assert(fs.take(n as int) =~= fs);
                }
                return false;
            }
            calls = calls + c;
            scores = scores + s;
        }
        assert(fs.take(n as int) =~= fs);
        true
    }

    /// Puts the analyzed files together into a report.
    pub fn build_report(
        &self,
        token_name: &str,
        search_dir: &str,
        files_scanned: usize,
        results: Vec<FileAnalysis>,
        duration_nanos: u128,
    ) -> (r: AnalysisReport)
        requires
            totals_fit(file_records(results@)),
        ensures
            is_report_of(self@, r, token_name@, search_dir@, files_scanned, file_records(results@), duration_nanos),
    {
        let ghost fs = file_records(results@);
        let n = results.len();
        let mut total_calls: usize = 0;
        let mut total_risk_score: usize = 0;
        let mut exposure_count: usize = 0;
        let mut critical_files: usize = 0;
        for i in 0..n
            invariant
                n == results@.len(),
                fs == file_records(results@),
                totals_fit(fs),
                total_calls == sum_calls(fs.take(i as int)),
                total_risk_score == sum_scores(fs.take(i as int)),
                exposure_count == exposed(fs.take(i as int)).len(),
                critical_files == critical(fs.take(i as int)).len(),
                exposure_count <= i,
                critical_files <= i,
        {
            proof {
                lemma_take_push(fs, i as int);
                lemma_filter_push(fs.take(i as int), fs[i as int], |f: FileRecord| is_exposed(f));
                lemma_filter_push(fs.take(i as int), fs[i as int], |f: FileRecord| is_critical(f));
                lemma_sums_grow(fs, i as int + 1, n as int);
                assert(fs.take(n as int) =~= fs);
            }
            assert(fs[i as int] == results@[i as int]@);
            let f = &results[i];
            total_calls = total_calls + f.call_count;
            total_risk_score = total_risk_score + f.risk_score;
            if f.has_exposure {
                exposure_count = exposure_count + 1;
            }
            if f.risk_level == RiskLevel::Critical {
                critical_files = critical_files + 1;
            }
        }
        assert(fs.take(n as int) =~= fs);
        let truncated = self.config.max_files > 0 && files_scanned >= self.config.max_files;
        let r = AnalysisReport {
            token_name: token_name.to_owned(),
            search_dir: search_dir.to_owned(),
            total_calls,
            exposure_count,
            total_risk_score,
            critical_files,
            files: results,
            duration_nanos,
            files_scanned,
            truncated,
            errors: Vec::new(),
        };
        assert(r@.errors =~= Seq::<Seq<char>>::empty());
        r
    }

    /// The report of an analysis that ran out of time before scanning.
    pub fn timeout_report(&self, token_name: &str, search_dir: &str, duration_nanos: u128) -> (r:
        AnalysisReport)
        ensures
            r@.token_name == token_name@,
            r@.search_dir == search_dir@,
            r@.total_calls == 0,
            r@.exposure_count == 0,
            r@.total_risk_score == 0,
            r@.critical_files == 0,
            r@.files == Seq::<FileRecord>::empty(),
            r@.duration_nanos == duration_nanos,
            r@.files_scanned == 0,
            r@.truncated,
            r@.errors == seq!["Analysis timed out"@],
    {
        let errors = vec!["Analysis timed out".to_owned()];
        let r = AnalysisReport {
            token_name: token_name.to_owned(),
            search_dir: search_dir.to_owned(),
            total_calls: 0,
            exposure_count: 0,
            total_risk_score: 0,
            critical_files: 0,
            files: Vec::new(),
            duration_nanos,
            files_scanned: 0,
            truncated: true,
            errors,
        };
        assert(r@.files =~= Seq::<FileRecord>::empty());
        assert(r@.errors =~= seq!["Analysis timed out"@]);
        r
    }
}

/// The sums over a prefix are at most the sums over a longer prefix.
pub proof fn lemma_sums_grow(fs: Seq<FileRecord>, i: int, j: int)
    requires
        0 <= i <= j <= fs.len(),
    ensures
        sum_calls(fs.take(i)) <= sum_calls(fs.take(j)),
        sum_scores(fs.take(i)) <= sum_scores(fs.take(j)),
    decreases j - i,
{
    if i < j {
        lemma_sums_grow(fs, i, j - 1);
        assert(fs.take(j).drop_last() =~= fs.take(j - 1));
    }
}

} // verus!
