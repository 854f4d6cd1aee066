//! Results of an analysis: per-file findings and the report over all files.

use vstd::prelude::*;
use crate::risk::RiskLevel;

verus! {

// ---------------------------------------------------------------------------
// Exposures
// ---------------------------------------------------------------------------

/// Exposure type detected.
#[derive(Debug, Clone, PartialEq, Eq)]
pub enum ExposureType {
    /// Hardcoded value in source code
    HardcodedValue,
    /// Logged or printed to output
    LoggedOutput,
    /// Found in environment file (.env)
    EnvironmentFile,
    /// Found in configuration file
    ConfigFile,
    /// High entropy string (likely real secret)
    HighEntropy,
    /// Known token prefix detected
    KnownTokenPrefix(String),
}

/// The mathematical form of an [`ExposureType`].
pub enum ExposureKind {
    HardcodedValue,
    LoggedOutput,
    EnvironmentFile,
    ConfigFile,
    HighEntropy,
    KnownTokenPrefix(Seq<char>),
}

impl View for ExposureType {
    type V = ExposureKind;

    open spec fn view(&self) -> ExposureKind {
        match self {
            ExposureType::HardcodedValue => ExposureKind::HardcodedValue,
            ExposureType::LoggedOutput => ExposureKind::LoggedOutput,
            ExposureType::EnvironmentFile => ExposureKind::EnvironmentFile,
            ExposureType::ConfigFile => ExposureKind::ConfigFile,
            ExposureType::HighEntropy => ExposureKind::HighEntropy,
            ExposureType::KnownTokenPrefix(d) => ExposureKind::KnownTokenPrefix(d@),
        }
    }
}

/// The text that describes an exposure kind.
pub open spec fn exposure_label(kind: ExposureKind) -> Seq<char> {
    match kind {
        ExposureKind::HardcodedValue => "Hardcoded value"@,
        ExposureKind::LoggedOutput => "Logged/printed"@,
        ExposureKind::EnvironmentFile => "In .env file"@,
        ExposureKind::ConfigFile => "In config file"@,
        ExposureKind::HighEntropy => "High entropy (real secret)"@,
        ExposureKind::KnownTokenPrefix(d) => "Known prefix: "@ + d,
    }
}

impl ExposureType {
    /// The text that describes this exposure type.
    pub fn describe(&self) -> (s: String)
        ensures
            s@ == exposure_label(self@),
    {
        match self {
            ExposureType::HardcodedValue => "Hardcoded value".to_owned(),
            ExposureType::LoggedOutput => "Logged/printed".to_owned(),
            ExposureType::EnvironmentFile => "In .env file".to_owned(),
            ExposureType::ConfigFile => "In config file".to_owned(),
            ExposureType::HighEntropy => "High entropy (real secret)".to_owned(),
            ExposureType::KnownTokenPrefix(d) => {
                let mut s = "Known prefix: ".to_owned();
                s.append(d.as_str());
                s
            },
        }
    }
}

/// Detailed exposure information.
#[derive(Debug, Clone)]
pub struct ExposureDetail {
    /// Line number where exposure was detected
    pub line: usize,
    /// Type of exposure
    pub exposure_type: ExposureType,
    /// The actual content that was matched (redacted if sensitive)
    pub context: String,
}

/// The mathematical form of an [`ExposureDetail`].
pub struct ExposureRecord {
    pub line: usize,
    pub kind: ExposureKind,
    pub context: Seq<char>,
}

impl View for ExposureDetail {
    type V = ExposureRecord;

    open spec fn view(&self) -> ExposureRecord {
        ExposureRecord { line: self.line, kind: self.exposure_type@, context: self.context@ }
    }
}

/// The records of a sequence of exposures.
pub open spec fn exposure_records(v: Seq<ExposureDetail>) -> Seq<ExposureRecord> {
    v.map_values(|e: ExposureDetail| e@)
}

// ---------------------------------------------------------------------------
// Per-file analysis
// ---------------------------------------------------------------------------

/// Analysis report for a single file.
#[derive(Debug, Clone)]
pub struct FileAnalysis {
    /// Path to the file
    pub path: String,
    /// Number of token occurrences in this file
    pub call_count: usize,
    /// Whether the token appears to be exposed (print, log, etc.)
    pub has_exposure: bool,
    /// Risk level based on file type
    pub risk_level: RiskLevel,
    /// Computed risk score (call_count * risk_multiplier)
    pub risk_score: usize,
    /// Detailed exposure information
    pub exposures: Vec<ExposureDetail>,
    /// Line numbers where exposure was detected (legacy compatibility)
    pub exposure_lines: Vec<usize>,
    /// Line numbers of all occurrences
    pub occurrence_lines: Vec<usize>,
}

/// The mathematical form of a [`FileAnalysis`].
pub struct FileRecord {
    pub path: Seq<char>,
    pub call_count: usize,
    pub has_exposure: bool,
    pub risk_level: RiskLevel,
    pub risk_score: usize,
    pub exposures: Seq<ExposureRecord>,
    pub exposure_lines: Seq<usize>,
    pub occurrence_lines: Seq<usize>,
}

impl View for FileAnalysis {
    type V = FileRecord;

    open spec fn view(&self) -> FileRecord {
        FileRecord {
            path: self.path@,
            call_count: self.call_count,
            has_exposure: self.has_exposure,
            risk_level: self.risk_level,
            risk_score: self.risk_score,
            exposures: exposure_records(self.exposures@),
            exposure_lines: self.exposure_lines@,
            occurrence_lines: self.occurrence_lines@,
        }
    }
}

/// The records of a sequence of file analyses.
pub open spec fn file_records(v: Seq<FileAnalysis>) -> Seq<FileRecord> {
    v.map_values(|f: FileAnalysis| f@)
}

/// The records of a sequence of references to file analyses.
pub open spec fn file_ref_records(v: Seq<&FileAnalysis>) -> Seq<FileRecord> {
    v.map_values(|f: &FileAnalysis| f@)
}

// ---------------------------------------------------------------------------
// Sums and counts over files
// ---------------------------------------------------------------------------

/// Total number of token occurrences over the files.
pub open spec fn sum_calls(fs: Seq<FileRecord>) -> nat
    decreases fs.len(),
{
    if fs.len() == 0 {
        0
    } else {
        sum_calls(fs.drop_last()) + fs.last().call_count as nat
    }
}

/// Total risk score over the files.
pub open spec fn sum_scores(fs: Seq<FileRecord>) -> nat
    decreases fs.len(),
{
    if fs.len() == 0 {
        0
    } else {
        sum_scores(fs.drop_last()) + fs.last().risk_score as nat
    }
}

/// A file with at least one exposure.
pub open spec fn is_exposed(f: FileRecord) -> bool {
    f.has_exposure
}

/// A file at critical risk.
pub open spec fn is_critical(f: FileRecord) -> bool {
    f.risk_level == RiskLevel::Critical
}

/// A file at high or critical risk.
pub open spec fn is_high_or_critical(f: FileRecord) -> bool {
    f.risk_level.severity() >= RiskLevel::High.severity()
}

/// An exposed file at critical risk.
pub open spec fn is_critical_exposure(f: FileRecord) -> bool {
    f.has_exposure && f.risk_level == RiskLevel::Critical
}

/// The files with exposures, in order.
pub open spec fn exposed(fs: Seq<FileRecord>) -> Seq<FileRecord> {
    fs.filter(|f: FileRecord| is_exposed(f))
}

/// The critical-risk files, in order.
pub open spec fn critical(fs: Seq<FileRecord>) -> Seq<FileRecord> {
    fs.filter(|f: FileRecord| is_critical(f))
}

/// The high- and critical-risk files, in order.
pub open spec fn high_or_critical(fs: Seq<FileRecord>) -> Seq<FileRecord> {
    fs.filter(|f: FileRecord| is_high_or_critical(f))
}

/// `s` with `x` appended, filtered, is the filtered `s` with `x` appended
/// where `x` passes.
pub proof fn lemma_filter_push<A>(s: Seq<A>, x: A, pred: spec_fn(A) -> bool)
    ensures
        s.push(x).filter(pred) == if pred(x) {
            s.filter(pred).push(x)
        } else {
            s.filter(pred)
        },
{
    reveal_with_fuel(Seq::<_>::filter, 1);
    assert(s.push(x).drop_last() =~= s);
}

/// A prefix of `fs`, one element longer.
pub proof fn lemma_take_push<A>(fs: Seq<A>, i: int)
    requires
        0 <= i < fs.len(),
    ensures
        fs.take(i + 1) == fs.take(i).push(fs[i]),
        fs.take(i + 1).drop_last() == fs.take(i),
        fs.take(i + 1).last() == fs[i],
{
    assert(fs.take(i + 1) =~= fs.take(i).push(fs[i]));
    assert(fs.take(i + 1).drop_last() =~= fs.take(i));
}

// ---------------------------------------------------------------------------
// The report
// ---------------------------------------------------------------------------

/// Complete analysis report.
#[derive(Debug, Clone)]
pub struct AnalysisReport {
    /// Token that was analyzed
    pub token_name: String,
    /// Directory that was scanned
    pub search_dir: String,
    /// Total number of calls found
    pub total_calls: usize,
    /// Number of files with exposure warnings
    pub exposure_count: usize,
    /// Total risk score across all files
    pub total_risk_score: usize,
    /// Number of critical-risk files found
    pub critical_files: usize,
    /// Per-file analysis results
    pub files: Vec<FileAnalysis>,
    /// Time taken for the analysis, in nanoseconds
    pub duration_nanos: u128,
    /// Number of files scanned
    pub files_scanned: usize,
    /// Whether the analysis was truncated due to limits
    pub truncated: bool,
    /// Error messages encountered during scan
    pub errors: Vec<String>,
}

/// The mathematical form of an [`AnalysisReport`].
pub struct ReportRecord {
    pub token_name: Seq<char>,
    pub search_dir: Seq<char>,
    pub total_calls: usize,
    pub exposure_count: usize,
    pub total_risk_score: usize,
    pub critical_files: usize,
    pub files: Seq<FileRecord>,
    pub duration_nanos: u128,
    pub files_scanned: usize,
    pub truncated: bool,
    pub errors: Seq<Seq<char>>,
}

impl View for AnalysisReport {
    type V = ReportRecord;

    open spec fn view(&self) -> ReportRecord {
        ReportRecord {
            token_name: self.token_name@,
            search_dir: self.search_dir@,
            total_calls: self.total_calls,
            exposure_count: self.exposure_count,
            total_risk_score: self.total_risk_score,
            critical_files: self.critical_files,
            files: file_records(self.files@),
            duration_nanos: self.duration_nanos,
            files_scanned: self.files_scanned,
            truncated: self.truncated,
            errors: self.errors.deep_view(),
        }
    }
}

/// The totals of a report agree with its files: the calls and scores are the
/// sums over the files, and the exposure and critical counts are the numbers
/// of exposed and of critical files.
pub open spec fn totals_agree(r: ReportRecord) -> bool {
    &&& r.total_calls == sum_calls(r.files)
    &&& r.total_risk_score == sum_scores(r.files)
    &&& r.exposure_count == exposed(r.files).len()
    &&& r.critical_files == critical(r.files).len()
}

impl AnalysisReport {
    /// Returns only files with exposure warnings.
    pub fn exposed_files(&self) -> (r: Vec<&FileAnalysis>)
        ensures
            file_ref_records(r@) == exposed(self@.files),
    {
        let mut r: Vec<&FileAnalysis> = Vec::new();
        let n = self.files.len();
        let ghost fs = self@.files;
        let ghost pred = |f: FileRecord| is_exposed(f);
        for i in 0..n
            invariant
                n == self.files@.len(),
                fs == file_records(self.files@),
                pred == (|f: FileRecord| is_exposed(f)),
                file_ref_records(r@) == fs.take(i as int).filter(pred),
        {
            let f = &self.files[i];
            assert(fs[i as int] == f@);
            proof {
                lemma_take_push(fs, i as int);
                lemma_filter_push(fs.take(i as int), fs[i as int], pred);
            }
            if f.has_exposure {
                let ghost before = r@;
                r.push(f);
                assert(file_ref_records(r@) =~= file_ref_records(before).push(f@));
            }
        }
        assert(fs.take(n as int) =~= fs);
        r
    }

    /// Returns files at critical or high risk level.
    pub fn high_risk_files(&self) -> (r: Vec<&FileAnalysis>)
        ensures
            file_ref_records(r@) == high_or_critical(self@.files),
    {
        let mut r: Vec<&FileAnalysis> = Vec::new();
        let n = self.files.len();
        let ghost fs = self@.files;
        let ghost pred = |f: FileRecord| is_high_or_critical(f);
        for i in 0..n
            invariant
                n == self.files@.len(),
                fs == file_records(self.files@),
                pred == (|f: FileRecord| is_high_or_critical(f)),
                file_ref_records(r@) == fs.take(i as int).filter(pred),
        {
            let f = &self.files[i];
            assert(fs[i as int] == f@);
            proof {
                lemma_take_push(fs, i as int);
                lemma_filter_push(fs.take(i as int), fs[i as int], pred);
            }
            if f.risk_level.at_least(RiskLevel::High) {
                let ghost before = r@;
                r.push(f);
                assert(file_ref_records(r@) =~= file_ref_records(before).push(f@));
            }
        }
        assert(fs.take(n as int) =~= fs);
        r
    }

    /// Check if any exposure was found.
    pub fn has_security_issues(&self) -> (b: bool)
        ensures
            b == (self.exposure_count > 0),
    {
        self.exposure_count > 0
    }

    /// Check if critical issues were found: some exposed file is at critical
    /// risk.
    pub fn has_critical_issues(&self) -> (b: bool)
        ensures
            b == exists|i: int|
                0 <= i < self@.files.len() && #[trigger] is_critical_exposure(self@.files[i]),
    {
        let n = self.files.len();
        for i in 0..n
            invariant
                n == self.files@.len(),
                forall|j: int| 0 <= j < i ==> !is_critical_exposure(#[trigger] self@.files[j]),
        {
            if self.files[i].has_exposure && self.files[i].risk_level == RiskLevel::Critical {
                assert(is_critical_exposure(self@.files[i as int]));
                return true;
            }
        }
        false
    }
}

// ---------------------------------------------------------------------------
// Ordering files by risk
// ---------------------------------------------------------------------------

/// File `a` ranks before file `b`: a higher risk score, or an equal score
/// with an exposure where `b` has none, or equal on both with more calls.
pub open spec fn ranks_before(a: FileRecord, b: FileRecord) -> bool {
    ||| a.risk_score > b.risk_score
    ||| (a.risk_score == b.risk_score && a.has_exposure && !b.has_exposure)
    ||| (a.risk_score == b.risk_score && a.has_exposure == b.has_exposure && a.call_count
        > b.call_count)
}

/// Files `a` and `b` rank equally.
pub open spec fn same_rank(a: FileRecord, b: FileRecord) -> bool {
    a.risk_score == b.risk_score && a.has_exposure == b.has_exposure && a.call_count == b.call_count
}

/// In a stable sort by rank, file `i` comes before file `j`: it ranks
/// before it, or ranks equally and comes first.
pub open spec fn sorted_before(fs: Seq<FileRecord>, i: int, j: int) -> bool {
    ranks_before(fs[i], fs[j]) || (same_rank(fs[i], fs[j]) && i < j)
}

/// `order` lists indices of the files in the order of a stable sort by rank.
pub open spec fn is_rank_order(fs: Seq<FileRecord>, order: Seq<usize>) -> bool {
    &&& forall|k: int| 0 <= k < order.len() ==> #[trigger] order[k] < fs.len()
    &&& forall|k1: int, k2: int|
        0 <= k1 < k2 < order.len() ==> sorted_before(fs, #[trigger] order[k1] as int, #[trigger] order[k2] as int)
}

/// `order` is the stable sort of all the files by rank.
pub open spec fn is_sorted_order(fs: Seq<FileRecord>, order: Seq<usize>) -> bool {
    order.len() == fs.len() && is_rank_order(fs, order)
}

/// Whether file `i` comes before file `j` in the stable sort by rank.
fn sorts_before(files: &Vec<FileAnalysis>, i: usize, j: usize) -> (b: bool)
    requires
        i < files@.len(),
        j < files@.len(),
    ensures
        b == sorted_before(file_records(files@), i as int, j as int),
{
    let a = &files[i];
    let c = &files[j];
    if a.risk_score != c.risk_score {
        return a.risk_score > c.risk_score;
    }
    if a.has_exposure != c.has_exposure {
        return a.has_exposure;
    }
    if a.call_count != c.call_count {
        return a.call_count > c.call_count;
    }
    i < j
}

/// The merge of two runs in rank order, of disjoint index ranges.
fn merge_orders(files: &Vec<FileAnalysis>, a: Vec<usize>, b: Vec<usize>, lo: usize, mid: usize, hi: usize) -> (r: Vec<usize>)
    requires
        lo <= mid <= hi <= files@.len(),
        is_rank_order(file_records(files@), a@),
        is_rank_order(file_records(files@), b@),
        forall|k: int| 0 <= k < a@.len() ==> lo <= #[trigger] a@[k] < mid,
        forall|k: int| 0 <= k < b@.len() ==> mid <= #[trigger] b@[k] < hi,
        a@.len() + b@.len() <= hi - lo,
    ensures
        r@.len() == a@.len() + b@.len(),
        is_rank_order(file_records(files@), r@),
        forall|k: int| 0 <= k < r@.len() ==> lo <= #[trigger] r@[k] < hi,
{
    let ghost fs = file_records(files@);
    let mut r: Vec<usize> = Vec::new();
    let mut i: usize = 0;
    let mut j: usize = 0;
    while i < a.len() || j < b.len()
        invariant
            fs == file_records(files@),
            lo <= mid <= hi <= files@.len(),
            is_rank_order(fs, a@),
            is_rank_order(fs, b@),
            forall|k: int| 0 <= k < a@.len() ==> lo <= #[trigger] a@[k] < mid,
            forall|k: int| 0 <= k < b@.len() ==> mid <= #[trigger] b@[k] < hi,
            i <= a@.len(),
            j <= b@.len(),
            r@.len() == i + j,
            is_rank_order(fs, r@),
            forall|k: int| 0 <= k < r@.len() ==> lo <= #[trigger] r@[k] < hi,
            forall|k: int, m: int|
                0 <= k < r@.len() && i <= m < a@.len() ==> sorted_before(fs, #[trigger] r@[k] as int, #[trigger] a@[m] as int),
            forall|k: int, m: int|
                0 <= k < r@.len() && j <= m < b@.len() ==> sorted_before(fs, #[trigger] r@[k] as int, #[trigger] b@[m] as int),
        decreases a@.len() + b@.len() - i - j,
    {
        let take_a = if i < a.len() && j < b.len() {
            sorts_before(files, a[i], b[j])
        } else {
            i < a.len()
        };
        let x = if take_a { a[i] } else { b[j] };
        proof {
            assert forall|m: int| i <= m < a@.len() && (!take_a || m > i) implies sorted_before(fs, x as int, #[trigger] a@[m] as int) by {
                if take_a {
                } else {
                    // x is b[j] and b[j] comes before a[i] (they are distinct indices)
                    lemma_sorted_before_total(fs, a@[i as int] as int, x as int);
                    if m > i {
                        lemma_sorted_before_transitive(fs, x as int, a@[i as int] as int, a@[m] as int);
                    }
                }
            }
            assert forall|m: int| j <= m < b@.len() && (take_a || m > j) implies sorted_before(fs, x as int, #[trigger] b@[m] as int) by {
                if take_a {
                    if j < b@.len() {
                        if m > j {
                            lemma_sorted_before_transitive(fs, x as int, b@[j as int] as int, b@[m] as int);
                        }
                    }
                } else {
                }
            }
        }
        let ghost before = r@;
        r.push(x);
        if take_a {
            i = i + 1;
        } else {
            j = j + 1;
        }
        assert forall|k1: int, k2: int| 0 <= k1 < k2 < r@.len() implies sorted_before(fs, #[trigger] r@[k1] as int, #[trigger] r@[k2] as int) by {
            if k2 < before.len() {
                assert(r@[k1] == before[k1] && r@[k2] == before[k2]);
            } else {
                assert(r@[k1] == before[k1]);
                if take_a {
                    assert(sorted_before(fs, before[k1] as int, a@[i - 1] as int));
                } else {
                    assert(sorted_before(fs, before[k1] as int, b@[j - 1] as int));
                }
            }
        }
        assert forall|k: int, m: int| 0 <= k < r@.len() && i <= m < a@.len() implies sorted_before(fs, #[trigger] r@[k] as int, #[trigger] a@[m] as int) by {
            if k < before.len() {
                assert(r@[k] == before[k]);
            }
        }
        assert forall|k: int, m: int| 0 <= k < r@.len() && j <= m < b@.len() implies sorted_before(fs, #[trigger] r@[k] as int, #[trigger] b@[m] as int) by {
            if k < before.len() {
                assert(r@[k] == before[k]);
            }
        }
    }
    r
}

/// Two distinct files are ordered one way or the other.
proof fn lemma_sorted_before_total(fs: Seq<FileRecord>, i: int, j: int)
    requires
        i != j,
        !sorted_before(fs, i, j),
    ensures
        sorted_before(fs, j, i),
{
}

/// The stable order by rank is transitive.
proof fn lemma_sorted_before_transitive(fs: Seq<FileRecord>, i: int, j: int, k: int)
    requires
        sorted_before(fs, i, j),
        sorted_before(fs, j, k),
    ensures
        sorted_before(fs, i, k),
{
}

/// The files with indices in `lo..hi`, in the stable order by rank.
fn sort_range(files: &Vec<FileAnalysis>, lo: usize, hi: usize) -> (r: Vec<usize>)
    requires
        lo <= hi <= files@.len(),
    ensures
        r@.len() == hi - lo,
        is_rank_order(file_records(files@), r@),
        forall|k: int| 0 <= k < r@.len() ==> lo <= #[trigger] r@[k] < hi,
    decreases hi - lo,
{
    if hi - lo == 0 {
        Vec::new()
    } else if hi - lo == 1 {
        let r = vec![lo];
        assert(r@ =~= seq![lo]);
        r
    } else {
        let mid = lo + (hi - lo) / 2;
        let a = sort_range(files, lo, mid);
        let b = sort_range(files, mid, hi);
        merge_orders(files, a, b, lo, mid, hi)
    }
}

impl AnalysisReport {
    /// The indices of the files, sorted by risk score (highest first), then
    /// exposure, then call count; files that rank equally keep their order.
    pub fn files_sorted_order(&self) -> (r: Vec<usize>)
        ensures
            is_sorted_order(self@.files, r@),
    {
        sort_range(&self.files, 0, self.files.len())
    }

    /// Returns files sorted by risk score (highest first), then exposure,
    /// then call count; files that rank equally keep their order.
    pub fn files_sorted(&self) -> (r: Vec<&FileAnalysis>)
        ensures
            exists|order: Seq<usize>|
                #[trigger] is_sorted_order(self@.files, order) && file_ref_records(r@) == order.map_values(
                    |k: usize| self@.files[k as int],
                ),
    {
        let order = self.files_sorted_order();
        let mut r: Vec<&FileAnalysis> = Vec::new();
        let n = order.len();
        for i in 0..n
            invariant
                n == order@.len(),
                is_sorted_order(self@.files, order@),
                file_ref_records(r@) == order@.take(i as int).map_values(|k: usize| self@.files[k as int]),
        {
            let k = order[i];
            assert(order@[i as int] < self@.files.len());
            assert(self@.files[k as int] == self.files@[k as int]@);
            let ghost before = r@;
            r.push(&self.files[k]);
            assert(file_ref_records(r@) =~= file_ref_records(before).push(self.files@[k as int]@));
            assert(order@.take(i + 1) =~= order@.take(i as int).push(k));
            assert(file_ref_records(r@) =~= order@.take(i + 1).map_values(|k: usize| self@.files[k as int]));
        }
        assert(order@.take(n as int) =~= order@);
        r
    }
}

} // verus!
