//! Properties of the analysis that hold for every input.

use vstd::prelude::*;
use crate::analyzer::{
    analyzed, component_ignored, ignored_path, results_from, scan_extensions, timed_out, walk_decision,
    walk_from, walked, wanted_file, WalkAction, WalkEntry, SourceFile,
};
use crate::config::AnalyzerConfig;
use crate::report::{
    exposed, is_critical_exposure, is_sorted_order, sorted_before, totals_agree, ExposureRecord,
    FileRecord, ReportRecord,
};
use crate::risk::{is_critical_name, lower_file_name, risk_level_of};
use crate::scan::{candidates_from, captured_value, classify, entropy_candidates_of, line_candidate};
use crate::scan::{
    env_line_step, file_analysis_of, has_exposure_on, is_comment_line, line_step, other_line_step,
    pattern_step, push_exposure, scan_context, scan_from, ScanSpec, ScanState, empty_scan,
};
use crate::pattern::{regex_is_match, regex_match_count};
use crate::text::{lines_from, lines_of, lowercase, trim};
use crate::analyzer::{analysis_result_ok, is_report_of};
use crate::cli::{option_step, OptionState};
use crate::paths::path_extension;
use crate::report::{AnalysisReport, ExposureKind};
use crate::risk::{is_high_risk_path, is_medium_extension, RiskLevel};
use crate::scan::{known_prefix_description, output_kind, redacted, truncated};
use crate::analyzer::{exposure_pattern_text, token_pattern_text, AnalyzerError};
use crate::text::{occurs_at, seq_contains, seq_starts_with};

verus! {

// ---------------------------------------------------------------------------
// Which lines count
// ---------------------------------------------------------------------------

/// A line that counts: not a comment, and the token occurs in it.
pub open spec fn counted_line(ctx: ScanSpec, line: Seq<char>) -> bool {
    !is_comment_line(trim(line)) && regex_match_count(ctx.token, line) > 0
}

/// The numbers of the counted lines among `lines[k..]`, in order.
pub open spec fn counted_lines_from(ctx: ScanSpec, lines: Seq<Seq<char>>, k: int) -> Seq<usize>
    decreases lines.len() - k,
{
    if k < 0 || k >= lines.len() {
        Seq::empty()
    } else {
        (if counted_line(ctx, lines[k]) {
            seq![(k + 1) as usize]
        } else {
            Seq::empty()
        }) + counted_lines_from(ctx, lines, k + 1)
    }
}

/// The occurrences of the token on the counted lines among `lines[k..]`.
pub open spec fn calls_from(ctx: ScanSpec, lines: Seq<Seq<char>>, k: int) -> nat
    decreases lines.len() - k,
{
    if k < 0 || k >= lines.len() {
        0
    } else {
        (if counted_line(ctx, lines[k]) {
            regex_match_count(ctx.token, lines[k])
        } else {
            0
        }) + calls_from(ctx, lines, k + 1)
    }
}

/// The exposure lines of a scan state.
pub open spec fn exposure_line_numbers(st: ScanState) -> Seq<usize> {
    st.exposures.map_values(|e: ExposureRecord| e.line)
}

/// Each element is greater than the one before.
pub open spec fn strictly_increasing(s: Seq<usize>) -> bool {
    forall|i: int, j: int| 0 <= i < j < s.len() ==> s[i] < s[j]
}

/// One step changes the count and the counted lines only on a counted line,
/// by that line's occurrences and its number.
proof fn lemma_line_step_counts(ctx: ScanSpec, st: ScanState, ln: usize, line: Seq<char>)
    requires
        line_step(ctx, st, ln, line) is Some,
    ensures
        ({
            let st2 = line_step(ctx, st, ln, line)->0;
            &&& st2.calls == st.calls + if counted_line(ctx, line) {
                regex_match_count(ctx.token, line)
            } else {
                0
            }
            &&& st2.occurrences == st.occurrences + if counted_line(ctx, line) {
                seq![ln]
            } else {
                Seq::<usize>::empty()
            }
        }),
{
    if counted_line(ctx, line) {
        let n = regex_match_count(ctx.token, line);
        let st1 = ScanState {
            calls: st.calls + n,
            occurrences: st.occurrences.push(ln),
            exposures: st.exposures,
        };
        assert(st.occurrences + seq![ln] =~= st.occurrences.push(ln));
        lemma_step_keeps_counts(ctx, st1, ln, line);
    } else {
        assert(st.occurrences + Seq::<usize>::empty() =~= st.occurrences);
    }
}

/// The exposure checks of a counted line leave the count and the counted
/// lines as they are.
proof fn lemma_step_keeps_counts(ctx: ScanSpec, st1: ScanState, ln: usize, line: Seq<char>)
    ensures
        ({
            let value = crate::scan::captured_value(ctx, line);
            let r = if ctx.is_env {
                env_line_step(ctx, st1, ln, value)
            } else {
                other_line_step(ctx, st1, ln, line, value)
            };
            r matches Some(st2) ==> st2.calls == st1.calls && st2.occurrences == st1.occurrences
        }),
{
}

/// The scan's count and counted lines, from line `k` on.
proof fn lemma_scan_counts(ctx: ScanSpec, lines: Seq<Seq<char>>, k: int, st: ScanState)
    requires
        0 <= k <= lines.len(),
        scan_from(ctx, lines, k, st) is Some,
    ensures
        scan_from(ctx, lines, k, st)->0.calls == st.calls + calls_from(ctx, lines, k),
        scan_from(ctx, lines, k, st)->0.occurrences == st.occurrences + counted_lines_from(ctx, lines, k),
    decreases lines.len() - k,
{
    if k < lines.len() {
        let st2 = line_step(ctx, st, (k + 1) as usize, lines[k])->0;
        lemma_line_step_counts(ctx, st, (k + 1) as usize, lines[k]);
        lemma_scan_counts(ctx, lines, k + 1, st2);
        let here = if counted_line(ctx, lines[k]) {
            seq![(k + 1) as usize]
        } else {
            Seq::<usize>::empty()
        };
        assert(st.occurrences + here + counted_lines_from(ctx, lines, k + 1) =~= st.occurrences + (
        here + counted_lines_from(ctx, lines, k + 1)));
    } else {
        assert(st.occurrences + Seq::<usize>::empty() =~= st.occurrences);
    }
}

/// The count of a file is the number of the token's occurrences on its
/// counted lines (lines that are not comments), and its occurrence lines are
/// exactly the numbers of those lines, in order.
pub proof fn law_counts_are_occurrences(
    path: Seq<char>,
    content: Seq<char>,
    token: Seq<char>,
    exposure: Seq<char>,
    high: Seq<Seq<char>>,
)
    requires
        file_analysis_of(path, content, token, exposure, high) is Some,
    ensures
        ({
            let fr = file_analysis_of(path, content, token, exposure, high)->0;
            let ctx = scan_context(path, token, exposure, high);
            &&& fr.call_count == calls_from(ctx, lines_of(content), 0)
            &&& fr.occurrence_lines == counted_lines_from(ctx, lines_of(content), 0)
        }),
{
    let ctx = scan_context(path, token, exposure, high);
    lemma_scan_counts(ctx, lines_of(content), 0, empty_scan());
    assert(Seq::<usize>::empty() + counted_lines_from(ctx, lines_of(content), 0) =~= counted_lines_from(
        ctx,
        lines_of(content),
        0,
    ));
}

// ---------------------------------------------------------------------------
// The shape of a file's findings
// ---------------------------------------------------------------------------

/// What holds of a scan state after `k` lines: occurrence lines and
/// exposure lines rise strictly and are at most `k`, every exposure is on an
/// occurrence line, and there are at least as many occurrences as lines
/// with occurrences.
pub open spec fn scan_shape(st: ScanState, k: int) -> bool {
    &&& strictly_increasing(st.occurrences)
    &&& forall|i: int| 0 <= i < st.occurrences.len() ==> 1 <= #[trigger] st.occurrences[i] <= k
    &&& strictly_increasing(exposure_line_numbers(st))
    &&& forall|i: int| 0 <= i < st.exposures.len() ==> #[trigger] st.exposures[i].line <= k
    &&& forall|i: int| 0 <= i < st.exposures.len() ==> st.occurrences.contains(#[trigger] st.exposures[i].line)
    &&& st.occurrences.len() <= st.calls
}

/// Recording an exposure on the line just counted keeps the shape.
proof fn lemma_push_keeps_shape(st: ScanState, k: int, e: ExposureRecord)
    requires
        scan_shape(st, k + 1),
        e.line == k + 1,
        st.occurrences.len() > 0,
        st.occurrences.last() == k + 1,
        forall|i: int| 0 <= i < st.exposures.len() ==> #[trigger] st.exposures[i].line < k + 1,
    ensures
        scan_shape(push_exposure(st, e), k + 1),
{
    let st2 = push_exposure(st, e);
    assert(exposure_line_numbers(st2) =~= exposure_line_numbers(st).push(e.line));
    assert forall|i: int| 0 <= i < st2.exposures.len() implies st2.occurrences.contains(#[trigger] st2.exposures[i].line) by {
        if i == st.exposures.len() {
            assert(st2.occurrences[st2.occurrences.len() - 1] == e.line);
        } else {
            assert(st2.exposures[i] == st.exposures[i]);
        }
    }
    assert forall|i: int, j: int| 0 <= i < j < exposure_line_numbers(st2).len() implies exposure_line_numbers(st2)[i] < exposure_line_numbers(st2)[j] by {
        if j == st.exposures.len() {
            assert(exposure_line_numbers(st2)[i] == st.exposures[i].line);
        } else {
            assert(exposure_line_numbers(st2)[i] == exposure_line_numbers(st)[i]);
            assert(exposure_line_numbers(st2)[j] == exposure_line_numbers(st)[j]);
        }
    }
}

/// The pattern check keeps the shape on the line just counted.
proof fn lemma_pattern_step_shape(ctx: ScanSpec, st: ScanState, k: int, line: Seq<char>)
    requires
        scan_shape(st, k + 1),
        k + 1 <= usize::MAX,
        st.occurrences.len() > 0,
        st.occurrences.last() == k + 1,
        forall|i: int| 0 <= i < st.exposures.len() ==> #[trigger] st.exposures[i].line <= k + 1,
        forall|i: int| 0 <= i < st.exposures.len() - 1 ==> #[trigger] st.exposures[i].line < k + 1,
        pattern_step(ctx, st, (k + 1) as usize, line) is Some,
    ensures
        scan_shape(pattern_step(ctx, st, (k + 1) as usize, line)->0, k + 1),
{
    let ln = (k + 1) as usize;
    if regex_is_match_here(ctx, line) && !has_exposure_on(st, ln) {
        let e = ExposureRecord {
            line: ln,
            kind: crate::scan::output_kind(crate::text::lowercase(line)),
            context: crate::scan::truncated(line)->0,
        };
        assert forall|i: int| 0 <= i < st.exposures.len() implies #[trigger] st.exposures[i].line < k + 1 by {
            if st.exposures[i].line == ln {
                assert(has_exposure_on(st, ln));
            }
        }
        lemma_push_keeps_shape(st, k, e);
    }
}

/// Whether the exposure pattern matches the line.
spec fn regex_is_match_here(ctx: ScanSpec, line: Seq<char>) -> bool {
    crate::pattern::regex_is_match(ctx.exposure, line)
}

/// One step keeps the shape, one line further on.
proof fn lemma_line_step_shape(ctx: ScanSpec, st: ScanState, k: int, line: Seq<char>)
    requires
        0 <= k,
        k + 1 <= usize::MAX,
        scan_shape(st, k),
        line_step(ctx, st, (k + 1) as usize, line) is Some,
    ensures
        scan_shape(line_step(ctx, st, (k + 1) as usize, line)->0, k + 1),
{
    let ln = (k + 1) as usize;
    if !is_comment_line(trim(line)) && regex_match_count(ctx.token, line) > 0 {
        let n = regex_match_count(ctx.token, line);
        let st1 = ScanState {
            calls: st.calls + n,
            occurrences: st.occurrences.push(ln),
            exposures: st.exposures,
        };
        assert(scan_shape(st1, k + 1)) by {
            assert forall|i: int| 0 <= i < st1.exposures.len() implies st1.occurrences.contains(#[trigger] st1.exposures[i].line) by {
                let j = choose|j: int| 0 <= j < st.occurrences.len() && st.occurrences[j] == st.exposures[i].line;
                assert(st1.occurrences[j] == st.exposures[i].line);
            }
            assert(exposure_line_numbers(st1) == exposure_line_numbers(st));
        }
        let value = crate::scan::captured_value(ctx, line);
        if ctx.is_env {
            match value {
                Some(v) => {
                    let e = crate::scan::classify(ctx, v, ln, crate::report::ExposureKind::EnvironmentFile, ctx.token + "=***"@)->0;
                    lemma_push_keeps_shape(st1, k, e);
                },
                None => {},
            }
        } else {
            let is_config = ctx.risk.severity() >= crate::risk::RiskLevel::Medium.severity();
            match value {
                Some(v) => {
                    if is_config {
                        if !crate::scan::is_env_reference(v) {
                            let e = crate::scan::classify(ctx, v, ln, crate::report::ExposureKind::ConfigFile, "Hardcoded in "@ + crate::risk::risk_level_label(ctx.risk))->0;
                            lemma_push_keeps_shape(st1, k, e);
                            lemma_pattern_step_shape(ctx, push_exposure(st1, e), k, line);
                        }
                    } else {
                        lemma_pattern_step_shape(ctx, st1, k, line);
                    }
                },
                None => {
                    lemma_pattern_step_shape(ctx, st1, k, line);
                },
            }
        }
    }
}

/// The scan keeps the shape to its end.
proof fn lemma_scan_shape(ctx: ScanSpec, lines: Seq<Seq<char>>, k: int, st: ScanState)
    requires
        0 <= k <= lines.len(),
        lines.len() < usize::MAX,
        scan_shape(st, k),
        scan_from(ctx, lines, k, st) is Some,
    ensures
        scan_shape(scan_from(ctx, lines, k, st)->0, lines.len() as int),
    decreases lines.len() - k,
{
    if k < lines.len() {
        lemma_line_step_shape(ctx, st, k, lines[k]);
        lemma_scan_shape(ctx, lines, k + 1, line_step(ctx, st, (k + 1) as usize, lines[k])->0);
    } else {
        assert(forall|i: int| 0 <= i < st.occurrences.len() ==> #[trigger] st.occurrences[i] <= lines.len());
    }
}

/// The findings of a file have this shape: its occurrence lines rise
/// strictly, every exposure is on an occurrence line, its exposure lines
/// rise strictly (at most one exposure per line), and its count is at least
/// its number of occurrence lines.
pub proof fn law_file_findings_shape(
    path: Seq<char>,
    content: Seq<char>,
    token: Seq<char>,
    exposure: Seq<char>,
    high: Seq<Seq<char>>,
)
    requires
        lines_of(content).len() < usize::MAX,
        file_analysis_of(path, content, token, exposure, high) is Some,
    ensures
        ({
            let fr = file_analysis_of(path, content, token, exposure, high)->0;
            &&& strictly_increasing(fr.occurrence_lines)
            &&& strictly_increasing(fr.exposure_lines)
            &&& forall|i: int| 0 <= i < fr.exposures.len() ==> fr.occurrence_lines.contains(#[trigger] fr.exposures[i].line)
            &&& fr.occurrence_lines.len() <= fr.call_count
            &&& fr.exposure_lines.len() <= fr.occurrence_lines.len()
        }),
{
    let ctx = scan_context(path, token, exposure, high);
    let lines = lines_of(content);
    assert(scan_shape(empty_scan(), 0));
    lemma_scan_shape(ctx, lines, 0, empty_scan());
    let st = scan_from(ctx, lines, 0, empty_scan())->0;
    let fr = file_analysis_of(path, content, token, exposure, high)->0;
    assert(fr.exposure_lines == exposure_line_numbers(st));
    lemma_increasing_in_increasing(exposure_line_numbers(st), st.occurrences);
}

/// A strictly rising sequence whose elements all occur in another strictly
/// rising sequence is no longer than it.
proof fn lemma_increasing_in_increasing(a: Seq<usize>, b: Seq<usize>)
    requires
        strictly_increasing(a),
        strictly_increasing(b),
        forall|i: int| 0 <= i < a.len() ==> b.contains(#[trigger] a[i]),
    ensures
        a.len() <= b.len(),
{
    let f = |i: int| choose|j: int| 0 <= j < b.len() && b[j] == a[i];
    assert forall|i: int| 0 <= i < a.len() implies 0 <= #[trigger] f(i) < b.len() && b[f(i)] == a[i] by {
        assert(b.contains(a[i]));
    }
    // f is strictly increasing, so a.len() <= b.len()
    assert forall|i: int, j: int| 0 <= i < j < a.len() implies #[trigger] f(i) < #[trigger] f(j) by {
        assert(b.contains(a[i]));
        assert(b.contains(a[j]));
        if f(i) >= f(j) {
            if f(i) > f(j) {
                assert(b[f(j)] < b[f(i)]);
            }
        }
    }
    lemma_rising_index_bound(a.len() as int, b.len() as int, f);
}

/// A strictly rising map from `0..n` into `0..m` needs `n <= m`.
proof fn lemma_rising_index_bound(n: int, m: int, f: spec_fn(int) -> int)
    requires
        n >= 0,
        m >= 0,
        forall|i: int| 0 <= i < n ==> 0 <= #[trigger] f(i) < m,
        forall|i: int, j: int| 0 <= i < j < n ==> #[trigger] f(i) < #[trigger] f(j),
    ensures
        n <= m,
    decreases n,
{
    if n > 0 {
        assert forall|i: int| 0 <= i < n ==> i <= #[trigger] f(i) by {
            lemma_rising_at_least_index(n, f, i);
        }
        assert(n - 1 <= f(n - 1));
        assert(0 <= f(n - 1) < m);
    }
}

/// The `i`-th value of a strictly rising map of naturals is at least `i`.
proof fn lemma_rising_at_least_index(n: int, f: spec_fn(int) -> int, i: int)
    requires
        forall|k: int| 0 <= k < n ==> 0 <= #[trigger] f(k),
        forall|a: int, b: int| 0 <= a < b < n ==> #[trigger] f(a) < #[trigger] f(b),
    ensures
        0 <= i < n ==> i <= f(i),
    decreases i,
{
    if 0 < i < n {
        lemma_rising_at_least_index(n, f, i - 1);
        assert(f(i - 1) < f(i));
    }
}

// ---------------------------------------------------------------------------
// Scores and flags of a file
// ---------------------------------------------------------------------------

/// A file's risk level is the one its path gives, its risk score is its
/// count times the level's multiplier, it is marked exposed exactly when it
/// has exposures, and its exposure lines are the lines of its exposures.
pub proof fn law_file_score_and_flags(
    path: Seq<char>,
    content: Seq<char>,
    token: Seq<char>,
    exposure: Seq<char>,
    high: Seq<Seq<char>>,
)
    requires
        file_analysis_of(path, content, token, exposure, high) is Some,
    ensures
        ({
            let fr = file_analysis_of(path, content, token, exposure, high)->0;
            &&& fr.path == path
            &&& fr.risk_level == risk_level_of(path)
            &&& fr.risk_score == fr.call_count * fr.risk_level.severity()
            &&& fr.has_exposure == (fr.exposures.len() > 0)
            &&& fr.exposure_lines.len() == fr.exposures.len()
            &&& forall|i: int| 0 <= i < fr.exposures.len() ==> #[trigger] fr.exposure_lines[i] == fr.exposures[i].line
        }),
{
    let ctx = scan_context(path, token, exposure, high);
    let st = scan_from(ctx, lines_of(content), 0, empty_scan())->0;
    let sev = ctx.risk.severity();
    assert(st.calls <= st.calls * sev) by (nonlinear_arith)
        requires
            sev >= 1,
    ;
}

// ---------------------------------------------------------------------------
// The entropy judgement
// ---------------------------------------------------------------------------

/// Two lists of high-entropy values agree on the value offered by a line.
pub open spec fn agree_on(h1: Seq<Seq<char>>, h2: Seq<Seq<char>>, vs: Seq<Seq<char>>) -> bool {
    forall|v: Seq<char>| vs.contains(v) ==> (h1.contains(v) == h2.contains(v))
}

/// A context with another list of high-entropy values.
pub open spec fn with_high(ctx: ScanSpec, high: Seq<Seq<char>>) -> ScanSpec {
    ScanSpec { high, ..ctx }
}

/// One step does not depend on the list of high-entropy values beyond the
/// value that the line offers.
proof fn lemma_line_step_high(ctx: ScanSpec, h1: Seq<Seq<char>>, h2: Seq<Seq<char>>, st: ScanState, ln: usize, line: Seq<char>)
    requires
        agree_on(h1, h2, line_candidate(ctx, line)),
    ensures
        line_step(with_high(ctx, h1), st, ln, line) == line_step(with_high(ctx, h2), st, ln, line),
{
    let c1 = with_high(ctx, h1);
    let c2 = with_high(ctx, h2);
    assert(captured_value(c1, line) == captured_value(ctx, line));
    assert(captured_value(c2, line) == captured_value(ctx, line));
    if !is_comment_line(trim(line)) && regex_match_count(ctx.token, line) > 0 {
        match captured_value(ctx, line) {
            Some(v) => {
                if ctx.is_env || ctx.risk.severity() >= crate::risk::RiskLevel::Medium.severity() {
                    assert(line_candidate(ctx, line) == seq![v]);
                    assert(seq![v].contains(v)) by {
                        assert(seq![v][0] == v);
                    }
                    assert(h1.contains(v) == h2.contains(v));
                }
            },
            None => {},
        }
    }
}

/// The scan from line `k` on does not depend on the list of high-entropy
/// values beyond the values that those lines offer.
proof fn lemma_scan_high(ctx: ScanSpec, h1: Seq<Seq<char>>, h2: Seq<Seq<char>>, lines: Seq<Seq<char>>, k: int, st: ScanState)
    requires
        0 <= k <= lines.len(),
        agree_on(h1, h2, candidates_from(ctx, lines, k)),
    ensures
        scan_from(with_high(ctx, h1), lines, k, st) == scan_from(with_high(ctx, h2), lines, k, st),
    decreases lines.len() - k,
{
    if k < lines.len() {
        let here = line_candidate(ctx, lines[k]);
        let rest = candidates_from(ctx, lines, k + 1);
        assert(candidates_from(ctx, lines, k) == here + rest);
        assert forall|v: Seq<char>| here.contains(v) implies (h1.contains(v) == h2.contains(v)) by {
            let i = choose|i: int| 0 <= i < here.len() && here[i] == v;
            assert((here + rest)[i] == v);
        }
        assert forall|v: Seq<char>| rest.contains(v) implies (h1.contains(v) == h2.contains(v)) by {
            let i = choose|i: int| 0 <= i < rest.len() && rest[i] == v;
            assert((here + rest)[here.len() + i] == v);
        }
        lemma_line_step_high(ctx, h1, h2, st, (k + 1) as usize, lines[k]);
        match line_step(with_high(ctx, h1), st, (k + 1) as usize, lines[k]) {
            Some(st2) => {
                lemma_scan_high(ctx, h1, h2, lines, k + 1, st2);
            },
            None => {},
        }
    }
}

/// The analysis of a file depends on the list of high-entropy values only
/// through the file's entropy candidates: two lists that agree on every
/// candidate give the same analysis.
pub proof fn law_entropy_only_on_candidates(
    path: Seq<char>,
    content: Seq<char>,
    token: Seq<char>,
    exposure: Seq<char>,
    h1: Seq<Seq<char>>,
    h2: Seq<Seq<char>>,
)
    requires
        agree_on(h1, h2, entropy_candidates_of(path, content, token, exposure)),
    ensures
        file_analysis_of(path, content, token, exposure, h1) == file_analysis_of(path, content, token, exposure, h2),
{
    let ctx = scan_context(path, token, exposure, Seq::empty());
    assert(scan_context(path, token, exposure, h1) == with_high(ctx, h1));
    assert(scan_context(path, token, exposure, h2) == with_high(ctx, h2));
    lemma_scan_high(ctx, h1, h2, lines_of(content), 0, empty_scan());
}

// ---------------------------------------------------------------------------
// Reports
// ---------------------------------------------------------------------------

/// The filtered sequence is not empty exactly when some element passes.
proof fn lemma_exposed_nonempty(fs: Seq<FileRecord>)
    ensures
        (exposed(fs).len() > 0) <==> (exists|i: int| 0 <= i < fs.len() && #[trigger] fs[i].has_exposure),
    decreases fs.len(),
{
    reveal_with_fuel(Seq::<_>::filter, 1);
    if fs.len() > 0 {
        lemma_exposed_nonempty(fs.drop_last());
        if exists|i: int| 0 <= i < fs.drop_last().len() && #[trigger] fs.drop_last()[i].has_exposure {
            let i = choose|i: int| 0 <= i < fs.drop_last().len() && #[trigger] fs.drop_last()[i].has_exposure;
            assert(fs[i].has_exposure);
        }
        if exists|i: int| 0 <= i < fs.len() && #[trigger] fs[i].has_exposure {
            let i = choose|i: int| 0 <= i < fs.len() && #[trigger] fs[i].has_exposure;
            if i < fs.len() - 1 {
                assert(fs.drop_last()[i].has_exposure);
            }
        }
    }
}

/// In a report whose totals agree with its files, security issues are
/// reported exactly when some file is exposed, and a critical issue (an
/// exposed critical file) is always a security issue.
pub proof fn law_report_issue_flags(r: ReportRecord)
    requires
        totals_agree(r),
    ensures
        (r.exposure_count > 0) <==> (exists|i: int| 0 <= i < r.files.len() && #[trigger] r.files[i].has_exposure),
        (exists|i: int| 0 <= i < r.files.len() && #[trigger] is_critical_exposure(r.files[i])) ==> r.exposure_count > 0,
{
    lemma_exposed_nonempty(r.files);
    if exists|i: int| 0 <= i < r.files.len() && #[trigger] is_critical_exposure(r.files[i]) {
        let i = choose|i: int| 0 <= i < r.files.len() && #[trigger] is_critical_exposure(r.files[i]);
        assert(r.files[i].has_exposure);
    }
}

/// The order that sorts the files lists every file exactly once.
pub proof fn law_sorted_order_is_permutation(fs: Seq<FileRecord>, order: Seq<usize>)
    requires
        is_sorted_order(fs, order),
    ensures
        forall|k1: int, k2: int| 0 <= k1 < k2 < order.len() ==> order[k1] != order[k2],
        forall|u: usize| u < fs.len() ==> #[trigger] order.contains(u),
{
    assert forall|k1: int, k2: int| 0 <= k1 < k2 < order.len() implies order[k1] != order[k2] by {
        assert(sorted_before(fs, order[k1] as int, order[k2] as int));
    }
    let oi = order.map_values(|u: usize| u as int);
    assert(oi.no_duplicates()) by {
        assert forall|a: int, b: int| 0 <= a < oi.len() && 0 <= b < oi.len() && a != b implies oi[a] != oi[b] by {
            if a < b {
                assert(sorted_before(fs, order[a] as int, order[b] as int));
            } else {
                assert(sorted_before(fs, order[b] as int, order[a] as int));
            }
        }
    }
    oi.unique_seq_to_set();
    vstd::set_lib::lemma_int_range(0, fs.len() as int);
    let range = vstd::set_lib::set_int_range(0, fs.len() as int);
    assert(oi.to_set().subset_of(range)) by {
        assert forall|x: int| oi.to_set().contains(x) implies range.contains(x) by {
            let k = choose|k: int| 0 <= k < oi.len() && oi[k] == x;
            assert(order[k] < fs.len());
        }
    }
    vstd::seq_lib::seq_to_set_is_finite(oi);
    vstd::set_lib::lemma_subset_equality(oi.to_set(), range);
    assert forall|u: usize| u < fs.len() implies #[trigger] order.contains(u) by {
        let i = u as int;
        assert(range.contains(i));
        assert(oi.to_set().contains(i));
        let k = choose|k: int| 0 <= k < oi.len() && oi[k] == i;
        assert(order[k] == u);
    }
}

// ---------------------------------------------------------------------------
// Choosing files
// ---------------------------------------------------------------------------

/// A file under an ignored directory is never taken.
pub proof fn law_ignored_never_scanned(c: AnalyzerConfig, collected: usize, elapsed_ms: u64, e: WalkEntry)
    requires
        ignored_path(c.ignore_dirs.deep_view(), e.path@),
    ensures
        walk_decision(c, collected, elapsed_ms, Some(e)) != WalkAction::Take,
{
}

/// A secrets file (its name matches a critical pattern) is taken whatever
/// its extension, while there is time and room, unless it is a directory,
/// under an ignored directory, or too large.
pub proof fn law_secret_files_always_scanned(c: AnalyzerConfig, collected: usize, elapsed_ms: u64, e: WalkEntry)
    requires
        !timed_out(c, elapsed_ms),
        !(c.max_files > 0 && collected >= c.max_files),
        !e.is_dir,
        !ignored_path(c.ignore_dirs.deep_view(), e.path@),
        is_critical_name(lower_file_name(e.path@)),
        !(e.size matches Some(sz) && sz > c.max_file_size),
    ensures
        walk_decision(c, collected, elapsed_ms, Some(e)) == WalkAction::Take,
{
}

/// The walk from source `k` on never takes more than the file limit.
proof fn lemma_walk_limit(c: AnalyzerConfig, sources: Seq<SourceFile>, k: int, taken: Seq<int>)
    requires
        0 <= k,
        c.max_files > 0,
        taken.len() <= c.max_files,
    ensures
        walk_from(c, sources, k, taken).len() <= c.max_files,
    decreases sources.len() - k,
{
    if k < sources.len() {
        match walk_decision(c, taken.len() as usize, 0, Some(sources[k].entry)) {
            WalkAction::Stop => {},
            WalkAction::Skip => {
                lemma_walk_limit(c, sources, k + 1, taken);
            },
            WalkAction::Take => {
                lemma_walk_limit(c, sources, k + 1, taken.push(k));
            },
        }
    }
}

/// An analysis scans at most `max_files` files when that limit is set.
pub proof fn law_file_limit(c: AnalyzerConfig, sources: Seq<SourceFile>)
    requires
        c.max_files > 0,
    ensures
        walked(c, sources).len() <= c.max_files,
{
    lemma_walk_limit(c, sources, 0, Seq::empty());
}

/// The findings from the `k`-th taken source on keep only files where the
/// token occurs.
proof fn lemma_results_nonzero(
    sources: Seq<SourceFile>,
    taken: Seq<int>,
    k: int,
    token: Seq<char>,
    exposure: Seq<char>,
    high: Seq<Seq<char>>,
    acc: Seq<FileRecord>,
)
    requires
        0 <= k,
        forall|i: int| 0 <= i < acc.len() ==> #[trigger] acc[i].call_count > 0,
        results_from(sources, taken, k, token, exposure, high, acc) is Some,
    ensures
        ({
            let rs = results_from(sources, taken, k, token, exposure, high, acc)->0;
            forall|i: int| 0 <= i < rs.len() ==> #[trigger] rs[i].call_count > 0
        }),
    decreases taken.len() - k,
{
    if k < taken.len() {
        let src = sources[taken[k]];
        match src.content {
            Some(text) => {
                let fr = file_analysis_of(src.entry.path@, text@, token, exposure, high)->0;
                let next = if fr.call_count > 0 {
                    acc.push(fr)
                } else {
                    acc
                };
                assert forall|i: int| 0 <= i < next.len() implies #[trigger] next[i].call_count > 0 by {
                    if i < acc.len() {
                        assert(next[i] == acc[i]);
                    }
                }
                lemma_results_nonzero(sources, taken, k + 1, token, exposure, high, next);
            },
            None => {
                lemma_results_nonzero(sources, taken, k + 1, token, exposure, high, acc);
            },
        }
    }
}

/// Every file in the findings of an analysis holds the token at least once.
pub proof fn law_reported_files_hold_token(
    c: AnalyzerConfig,
    sources: Seq<SourceFile>,
    token_name: Seq<char>,
    high: Seq<Seq<char>>,
)
    requires
        analyzed(c, sources, token_name, high) is Some,
    ensures
        forall|i: int|
            0 <= i < analyzed(c, sources, token_name, high)->0.len() ==> #[trigger] analyzed(
                c,
                sources,
                token_name,
                high,
            )->0[i].call_count > 0,
{
    lemma_results_nonzero(
        sources,
        walked(c, sources),
        0,
        crate::analyzer::token_pattern_text(crate::pattern::escaped(token_name)),
        crate::analyzer::exposure_pattern_text(crate::pattern::escaped(token_name)),
        high,
        Seq::empty(),
    );
}

// ---------------------------------------------------------------------------
// Risk levels
// ---------------------------------------------------------------------------

/// The risk levels take precedence in a fixed order: a file whose name marks
/// a secrets file is critical wherever it lies (also inside an
/// infrastructure directory); otherwise infrastructure configuration named in
/// the file name or the path is high; otherwise a configuration extension is
/// medium; only a file with none of these is low.
pub proof fn law_risk_level_precedence(path: Seq<char>)
    ensures
        is_critical_name(lower_file_name(path)) ==> risk_level_of(path) == RiskLevel::Critical,
        risk_level_of(path) == RiskLevel::Critical ==> is_critical_name(lower_file_name(path)),
        !is_critical_name(lower_file_name(path)) && is_high_risk_path(
            lower_file_name(path),
            lowercase(path),
        ) ==> risk_level_of(path) == RiskLevel::High,
        risk_level_of(path) == RiskLevel::High ==> !is_critical_name(lower_file_name(path))
            && is_high_risk_path(lower_file_name(path), lowercase(path)),
        !is_critical_name(lower_file_name(path)) && !is_high_risk_path(
            lower_file_name(path),
            lowercase(path),
        ) && (path_extension(path) matches Some(x) && is_medium_extension(lowercase(x)))
            ==> risk_level_of(path) == RiskLevel::Medium,
        risk_level_of(path) == RiskLevel::Medium ==> {
            &&& !is_critical_name(lower_file_name(path))
            &&& !is_high_risk_path(lower_file_name(path), lowercase(path))
            &&& (path_extension(path) matches Some(x) && is_medium_extension(lowercase(x)))
        },
        risk_level_of(path) == RiskLevel::Low ==> {
            &&& !is_critical_name(lower_file_name(path))
            &&& !is_high_risk_path(lower_file_name(path), lowercase(path))
            &&& !(path_extension(path) matches Some(x) && is_medium_extension(lowercase(x)))
        },
{
}

// ---------------------------------------------------------------------------
// Command-line options
// ---------------------------------------------------------------------------

/// The option names differ from one another.
proof fn lemma_option_names_differ()
    ensures
        "-f"@ != "-t"@,
        "-f"@ != "-j"@,
        "-f"@ != "-v"@,
        "-t"@ != "-j"@,
        "-t"@ != "-v"@,
        "-j"@ != "-v"@,
        "--fast"@ != "--thorough"@,
        "--fast"@ != "--json"@,
        "--fast"@ != "--verbose"@,
        "--thorough"@ != "--json"@,
        "--thorough"@ != "--verbose"@,
        "--json"@ != "--verbose"@,
        "--fast"@.len() == 6,
        "--thorough"@.len() == 10,
        "--json"@.len() == 6,
        "--verbose"@.len() == 9,
        "-f"@.len() == 2,
        "-t"@.len() == 2,
        "-j"@.len() == 2,
        "-v"@.len() == 2,
        "--hidden"@.len() == 8,
        "--follow-links"@.len() == 14,
{
    reveal_strlit("-f");
    reveal_strlit("--fast");
    reveal_strlit("-t");
    reveal_strlit("--thorough");
    reveal_strlit("-j");
    reveal_strlit("--json");
    reveal_strlit("-v");
    reveal_strlit("--verbose");
    reveal_strlit("--hidden");
    reveal_strlit("--follow-links");
    assert("-f"@[1] != "-t"@[1]);
    assert("-f"@[1] != "-j"@[1]);
    assert("-f"@[1] != "-v"@[1]);
    assert("-t"@[1] != "-j"@[1]);
    assert("-t"@[1] != "-v"@[1]);
    assert("-j"@[1] != "-v"@[1]);
    assert("--fast"@[2] != "--json"@[2]);
    assert("--thorough"@.len() != "--verbose"@.len());
}

/// Each short option does what its long form does (`-f` and `--fast`, `-t`
/// and `--thorough`, `-j` and `--json`, `-v` and `--verbose`), whatever the
/// settings before it.
pub proof fn law_short_options_match_long(st: OptionState)
    ensures
        option_step(st, "-f"@) == option_step(st, "--fast"@),
        option_step(st, "-t"@) == option_step(st, "--thorough"@),
        option_step(st, "-j"@) == option_step(st, "--json"@),
        option_step(st, "-v"@) == option_step(st, "--verbose"@),
{
    lemma_option_names_differ();
}

/// The presets that the options choose: `--fast` (or `-f`) scans at most
/// 1000 files of at most 1 MiB within 5 s; `--thorough` (or `-t`) scans
/// without a file limit, files of up to 50 MiB, hidden ones included, within
/// 120 s. Either keeps the output settings and records no unknown option.
pub proof fn law_presets_from_options(st: OptionState)
    ensures
        ({
            let f = option_step(st, "--fast"@);
            &&& f.max_files == 1000
            &&& f.max_file_size == 1024 * 1024
            &&& f.timeout_ms == 5000
            &&& !f.include_hidden
            &&& f.json == st.json
            &&& f.verbose == st.verbose
            &&& f.unknown == st.unknown
        }),
        ({
            let t = option_step(st, "--thorough"@);
            &&& t.max_files == 0
            &&& t.max_file_size == 50 * 1024 * 1024
            &&& t.timeout_ms == 120_000
            &&& t.include_hidden
            &&& t.json == st.json
            &&& t.verbose == st.verbose
            &&& t.unknown == st.unknown
        }),
{
    lemma_option_names_differ();
}

/// What each flag sets, all other settings kept: `--json` the JSON output,
/// `--verbose` the progress output, `--hidden` hidden files,
/// `--follow-links` symbolic links. An argument that does not begin with `-`
/// changes nothing.
pub proof fn law_option_effects(st: OptionState, arg: Seq<char>)
    ensures
        arg == "--json"@ ==> option_step(st, arg) == (OptionState { json: true, ..st }),
        arg == "--verbose"@ ==> option_step(st, arg) == (OptionState { verbose: true, ..st }),
        arg == "--hidden"@ ==> option_step(st, arg) == (OptionState { include_hidden: true, ..st }),
        arg == "--follow-links"@ ==> option_step(st, arg) == (OptionState { follow_symlinks: true, ..st }),
        !crate::text::seq_starts_with(arg, "-"@) ==> option_step(st, arg) == st,
{
    lemma_option_names_differ();
    reveal_strlit("--json");
    reveal_strlit("--verbose");
    reveal_strlit("--hidden");
    reveal_strlit("--follow-links");
    reveal_strlit("--timeout=");
    reveal_strlit("--max-files=");
    reveal_strlit("-");
    reveal_strlit("-f");
    reveal_strlit("-t");
    reveal_strlit("-j");
    reveal_strlit("-v");
    reveal_strlit("--fast");
    reveal_strlit("--thorough");
    if !crate::text::seq_starts_with(arg, "-"@) {
        if arg.len() > 0 && arg[0] == '-' {
            assert(arg.subrange(0, 1) =~= "-"@);
        }
        if crate::text::seq_starts_with(arg, "--timeout="@) {
            assert(arg.subrange(0, 10)[0] == arg[0]);
        }
        if crate::text::seq_starts_with(arg, "--max-files="@) {
            assert(arg.subrange(0, 12)[0] == arg[0]);
        }
    }
}

/// An option that the tool knows is never reported as unknown: the exact
/// options, and `--timeout=` and `--max-files=` with any value.
pub proof fn law_known_options_are_not_unknown(st: OptionState, arg: Seq<char>)
    requires
        arg == "--fast"@ || arg == "-f"@ || arg == "--thorough"@ || arg == "-t"@ || arg == "--json"@
            || arg == "-j"@ || arg == "--verbose"@ || arg == "-v"@ || arg == "--hidden"@ || arg
            == "--follow-links"@ || crate::text::seq_starts_with(arg, "--timeout="@)
            || crate::text::seq_starts_with(arg, "--max-files="@),
    ensures
        option_step(st, arg).unknown == st.unknown,
{
}

// ---------------------------------------------------------------------------
// Truncation
// ---------------------------------------------------------------------------

/// A report is marked truncated only where a file limit is set and the scan
/// reached it; an unlimited scan (`max_files` 0) is never truncated.
pub proof fn law_report_truncated_only_at_limit(
    c: AnalyzerConfig,
    r: AnalysisReport,
    token_name: Seq<char>,
    search_dir: Seq<char>,
    files_scanned: usize,
    results: Seq<FileRecord>,
    duration_nanos: u128,
)
    requires
        is_report_of(c, r, token_name, search_dir, files_scanned, results, duration_nanos),
    ensures
        c.max_files == 0 ==> !r@.truncated,
        r@.truncated ==> c.max_files > 0 && files_scanned >= c.max_files,
        c.max_files > 0 && files_scanned >= c.max_files ==> r@.truncated,
{
}

/// An analysis is truncated exactly when a file limit is set and the walk
/// took that many files; with no limit it is never truncated.
pub proof fn law_analysis_truncated_at_limit(
    c: AnalyzerConfig,
    rep: AnalysisReport,
    token_name: Seq<char>,
    search_dir: Seq<char>,
    sources: Seq<SourceFile>,
    high: Seq<Seq<char>>,
)
    requires
        analysis_result_ok(c, Ok::<AnalysisReport, AnalyzerError>(rep), token_name, search_dir, true, sources, high),
    ensures
        c.max_files == 0 ==> !rep@.truncated,
        rep@.truncated <==> (c.max_files > 0 && walked(c, sources).len() == c.max_files),
{
    if c.max_files > 0 {
        law_file_limit(c, sources);
    }
}

// ---------------------------------------------------------------------------
// Known prefixes before entropy
// ---------------------------------------------------------------------------

/// A value with a known token prefix is reported as that prefix, whatever
/// the list of high-entropy values holds: the prefix is checked first.
pub proof fn law_known_prefix_classified_first(
    ctx: ScanSpec,
    v: Seq<char>,
    ln: usize,
    fallback: ExposureKind,
    fallback_context: Seq<char>,
)
    requires
        known_prefix_description(v) is Some,
        redacted(v) is Some,
    ensures
        classify(ctx, v, ln, fallback, fallback_context) == Some(
            ExposureRecord {
                line: ln,
                kind: ExposureKind::KnownTokenPrefix(known_prefix_description(v)->0),
                context: redacted(v)->0,
            },
        ),
{
}

/// On a line of an environment file that holds the token and assigns a value
/// with a known prefix, the line's exposure is that prefix, with the value
/// redacted, whatever the list of high-entropy values holds.
pub proof fn law_env_file_known_prefix(ctx: ScanSpec, st: ScanState, ln: usize, line: Seq<char>)
    requires
        ctx.is_env,
        !is_comment_line(trim(line)),
        regex_match_count(ctx.token, line) > 0,
        st.calls + regex_match_count(ctx.token, line) <= usize::MAX,
        captured_value(ctx, line) matches Some(v) && known_prefix_description(v) is Some && redacted(
            v,
        ) is Some,
    ensures
        line_step(ctx, st, ln, line) matches Some(s) && s.exposures == st.exposures.push(
            ExposureRecord {
                line: ln,
                kind: ExposureKind::KnownTokenPrefix(
                    known_prefix_description(captured_value(ctx, line)->0)->0,
                ),
                context: redacted(captured_value(ctx, line)->0)->0,
            },
        ),
{
}

/// In a configuration file (risk at least medium) that is not an environment
/// file, a line that holds the token and assigns a value with a known prefix
/// (not a reference to the environment) records that prefix first, whatever
/// the list of high-entropy values holds.
pub proof fn law_config_file_known_prefix(ctx: ScanSpec, st: ScanState, ln: usize, line: Seq<char>)
    requires
        !ctx.is_env,
        ctx.risk.severity() >= RiskLevel::Medium.severity(),
        !is_comment_line(trim(line)),
        regex_match_count(ctx.token, line) > 0,
        st.calls + regex_match_count(ctx.token, line) <= usize::MAX,
        captured_value(ctx, line) matches Some(v) && !crate::scan::is_env_reference(v)
            && known_prefix_description(v) is Some && redacted(v) is Some,
    ensures
        line_step(ctx, st, ln, line) matches Some(s) ==> s.exposures[st.exposures.len() as int] == (
        ExposureRecord {
            line: ln,
            kind: ExposureKind::KnownTokenPrefix(
                known_prefix_description(captured_value(ctx, line)->0)->0,
            ),
            context: redacted(captured_value(ctx, line)->0)->0,
        }),
        line_step(ctx, st, ln, line) matches Some(s) ==> s.exposures.len() > st.exposures.len(),
{
}


// ---------------------------------------------------------------------------
// The exposure pattern
// ---------------------------------------------------------------------------

/// `p` occurs at the end of `s`.
pub open spec fn seq_ends_with(s: Seq<char>, p: Seq<char>) -> bool {
    occurs_at(s, p, s.len() - p.len())
}

/// The call patterns that flag a line as printing or logging, in the order
/// of the exposure pattern: print, console, Python logging, Rust log macros,
/// generic log calls, stdout/stderr writes, f-strings and `format!`.
pub open spec fn logging_call_patterns() -> Seq<Seq<char>> {
    seq![
        r"(?i)(print|println!?|printf|echo|puts)\s*[\(\[]"@,
        r"(?i)console\.(log|info|warn|error|debug)\s*\("@,
        r"(?i)(logging\.|logger\.)(info|debug|warning|error|critical)\s*\("@,
        r"(?i)(log::)?(info!|debug!|warn!|error!|trace!)\s*\("@,
        r"(?i)\blog\s*[\(\[]"@,
        r"(?i)(stdout|stderr|write|writeln!?)\s*[\(\[]"@,
        r#"(?i)f["']"#@,
        r"(?i)format!\s*\("@,
    ]
}

/// A whole alternative of the exposure pattern for a call: the call, then
/// anything, then the token as a whole word (the same pattern that counts
/// the token's occurrences).
pub open spec fn call_alternative(call: Seq<char>, e: Seq<char>) -> Seq<char> {
    "|"@ + call + ".*"@ + token_pattern_text(e)
}

proof fn lemma_contains_append(a: Seq<char>, b: Seq<char>, p: Seq<char>)
    requires
        seq_contains(a, p),
    ensures
        seq_contains(a + b, p),
{
    let i = choose|i: int| occurs_at(a, p, i);
    assert((a + b).subrange(i, i + p.len()) =~= a.subrange(i, i + p.len()));
    assert(occurs_at(a + b, p, i));
}

proof fn lemma_starts_append(a: Seq<char>, b: Seq<char>, p: Seq<char>)
    requires
        seq_starts_with(a, p),
    ensures
        seq_starts_with(a + b, p),
{
    assert((a + b).subrange(0, p.len() as int) =~= a.subrange(0, p.len() as int));
}

/// A window `|`, call pattern with `.*\b`, token, `\b`, `|` holds the call's
/// whole alternative followed by `|`.
proof fn lemma_window(pre: Seq<char>, lit: Seq<char>, call: Seq<char>, e: Seq<char>)
    requires
        lit == call + ".*"@ + r"\b"@,
    ensures
        seq_contains(((((pre + "|"@) + lit) + e) + r"\b"@) + "|"@, call_alternative(call, e) + "|"@),
        seq_ends_with((((pre + "|"@) + lit) + e) + r"\b"@, call_alternative(call, e)),
{
    let t = call_alternative(call, e);
    let w = ((((pre + "|"@) + lit) + e) + r"\b"@) + "|"@;
    assert(w =~= pre + (t + "|"@));
    assert(w.subrange(pre.len() as int, (pre.len() + (t + "|"@).len()) as int) =~= t + "|"@);
    assert(occurs_at(w, t + "|"@, pre.len() as int));
    let v = (((pre + "|"@) + lit) + e) + r"\b"@;
    assert(v =~= pre + t);
    assert(v.subrange(v.len() - t.len(), v.len() as int) =~= t);
}

/// Each call pattern with `.*\b` is the call, `.*` and `\b`.
proof fn lemma_call_literals()
    ensures
        r"(?i)(print|println!?|printf|echo|puts)\s*[\(\[].*\b"@ == logging_call_patterns()[0] + ".*"@ + r"\b"@,
        r"(?i)console\.(log|info|warn|error|debug)\s*\(.*\b"@ == logging_call_patterns()[1] + ".*"@ + r"\b"@,
        r"(?i)(logging\.|logger\.)(info|debug|warning|error|critical)\s*\(.*\b"@ == logging_call_patterns()[2] + ".*"@ + r"\b"@,
        r"(?i)(log::)?(info!|debug!|warn!|error!|trace!)\s*\(.*\b"@ == logging_call_patterns()[3] + ".*"@ + r"\b"@,
        r"(?i)\blog\s*[\(\[].*\b"@ == logging_call_patterns()[4] + ".*"@ + r"\b"@,
        r"(?i)(stdout|stderr|write|writeln!?)\s*[\(\[].*\b"@ == logging_call_patterns()[5] + ".*"@ + r"\b"@,
        r#"(?i)f["'].*\b"#@ == logging_call_patterns()[6] + ".*"@ + r"\b"@,
        r"(?i)format!\s*\(.*\b"@ == logging_call_patterns()[7] + ".*"@ + r"\b"@,
{
    reveal_strlit(".*");
    reveal_strlit(r"\b");
    reveal_strlit(r"(?i)(print|println!?|printf|echo|puts)\s*[\(\[].*\b");
    reveal_strlit(r"(?i)(print|println!?|printf|echo|puts)\s*[\(\[]");
    reveal_strlit(r"(?i)console\.(log|info|warn|error|debug)\s*\(.*\b");
    reveal_strlit(r"(?i)console\.(log|info|warn|error|debug)\s*\(");
    reveal_strlit(r"(?i)(logging\.|logger\.)(info|debug|warning|error|critical)\s*\(.*\b");
    reveal_strlit(r"(?i)(logging\.|logger\.)(info|debug|warning|error|critical)\s*\(");
    reveal_strlit(r"(?i)(log::)?(info!|debug!|warn!|error!|trace!)\s*\(.*\b");
    reveal_strlit(r"(?i)(log::)?(info!|debug!|warn!|error!|trace!)\s*\(");
    reveal_strlit(r"(?i)\blog\s*[\(\[].*\b");
    reveal_strlit(r"(?i)\blog\s*[\(\[]");
    reveal_strlit(r"(?i)(stdout|stderr|write|writeln!?)\s*[\(\[].*\b");
    reveal_strlit(r"(?i)(stdout|stderr|write|writeln!?)\s*[\(\[]");
    reveal_strlit(r#"(?i)f["'].*\b"#);
    reveal_strlit(r#"(?i)f["']"#);
    reveal_strlit(r"(?i)format!\s*\(.*\b");
    reveal_strlit(r"(?i)format!\s*\(");
    assert(r"(?i)(print|println!?|printf|echo|puts)\s*[\(\[].*\b"@ =~= logging_call_patterns()[0] + ".*"@ + r"\b"@);
    assert(r"(?i)console\.(log|info|warn|error|debug)\s*\(.*\b"@ =~= logging_call_patterns()[1] + ".*"@ + r"\b"@);
    assert(r"(?i)(logging\.|logger\.)(info|debug|warning|error|critical)\s*\(.*\b"@ =~= logging_call_patterns()[2] + ".*"@ + r"\b"@);
    assert(r"(?i)(log::)?(info!|debug!|warn!|error!|trace!)\s*\(.*\b"@ =~= logging_call_patterns()[3] + ".*"@ + r"\b"@);
    assert(r"(?i)\blog\s*[\(\[].*\b"@ =~= logging_call_patterns()[4] + ".*"@ + r"\b"@);
    assert(r"(?i)(stdout|stderr|write|writeln!?)\s*[\(\[].*\b"@ =~= logging_call_patterns()[5] + ".*"@ + r"\b"@);
    assert(r#"(?i)f["'].*\b"#@ =~= logging_call_patterns()[6] + ".*"@ + r"\b"@);
    assert(r"(?i)format!\s*\(.*\b"@ =~= logging_call_patterns()[7] + ".*"@ + r"\b"@);
}

/// Every documented printing or logging call is a whole alternative of the
/// exposure pattern, whatever the (escaped) token `e`: the call, then
/// anything, then the token as a whole word. The alternatives are separated
/// by `|`, and the last one ends the pattern. The pattern also begins with
/// the hardcoded assignment of a quoted value to the token.
pub proof fn law_exposure_pattern_covers_calls(e: Seq<char>)
    ensures
        forall|k: int|
            0 <= k < logging_call_patterns().len() - 1 ==> seq_contains(
                exposure_pattern_text(e),
                #[trigger] call_alternative(logging_call_patterns()[k], e) + "|"@,
            ),
        seq_ends_with(
            exposure_pattern_text(e),
            call_alternative(logging_call_patterns()[logging_call_patterns().len() - 1], e),
        ),
        seq_starts_with(exposure_pattern_text(e), token_pattern_text(e) + r#"\s*=\s*["'][^"']+["']"#@ + "|"@),
{
    lemma_call_literals();
    let cps = logging_call_patterns();
    assert forall|a: Seq<char>, b: Seq<char>, p: Seq<char>| seq_contains(a, p) implies #[trigger] seq_contains(a + b, p) by {
        lemma_contains_append(a, b, p);
    }
    assert forall|a: Seq<char>, b: Seq<char>, p: Seq<char>| seq_starts_with(a, p) implies #[trigger] seq_starts_with(a + b, p) by {
        lemma_starts_append(a, b, p);
    }
    assert forall|pre: Seq<char>| #[trigger] seq_contains(((((pre + "|"@) + r"(?i)(print|println!?|printf|echo|puts)\s*[\(\[].*\b"@) + e) + r"\b"@) + "|"@, call_alternative(cps[0], e) + "|"@) by {
        lemma_window(pre, r"(?i)(print|println!?|printf|echo|puts)\s*[\(\[].*\b"@, cps[0], e);
    }
    assert forall|pre: Seq<char>| #[trigger] seq_contains(((((pre + "|"@) + r"(?i)console\.(log|info|warn|error|debug)\s*\(.*\b"@) + e) + r"\b"@) + "|"@, call_alternative(cps[1], e) + "|"@) by {
        lemma_window(pre, r"(?i)console\.(log|info|warn|error|debug)\s*\(.*\b"@, cps[1], e);
    }
    assert forall|pre: Seq<char>| #[trigger] seq_contains(((((pre + "|"@) + r"(?i)(logging\.|logger\.)(info|debug|warning|error|critical)\s*\(.*\b"@) + e) + r"\b"@) + "|"@, call_alternative(cps[2], e) + "|"@) by {
        lemma_window(pre, r"(?i)(logging\.|logger\.)(info|debug|warning|error|critical)\s*\(.*\b"@, cps[2], e);
    }
    assert forall|pre: Seq<char>| #[trigger] seq_contains(((((pre + "|"@) + r"(?i)(log::)?(info!|debug!|warn!|error!|trace!)\s*\(.*\b"@) + e) + r"\b"@) + "|"@, call_alternative(cps[3], e) + "|"@) by {
        lemma_window(pre, r"(?i)(log::)?(info!|debug!|warn!|error!|trace!)\s*\(.*\b"@, cps[3], e);
    }
    assert forall|pre: Seq<char>| #[trigger] seq_contains(((((pre + "|"@) + r"(?i)\blog\s*[\(\[].*\b"@) + e) + r"\b"@) + "|"@, call_alternative(cps[4], e) + "|"@) by {
        lemma_window(pre, r"(?i)\blog\s*[\(\[].*\b"@, cps[4], e);
    }
    assert forall|pre: Seq<char>| #[trigger] seq_contains(((((pre + "|"@) + r"(?i)(stdout|stderr|write|writeln!?)\s*[\(\[].*\b"@) + e) + r"\b"@) + "|"@, call_alternative(cps[5], e) + "|"@) by {
        lemma_window(pre, r"(?i)(stdout|stderr|write|writeln!?)\s*[\(\[].*\b"@, cps[5], e);
    }
    assert forall|pre: Seq<char>| #[trigger] seq_contains(((((pre + "|"@) + r#"(?i)f["'].*\b"#@) + e) + r"\b"@) + "|"@, call_alternative(cps[6], e) + "|"@) by {
        lemma_window(pre, r#"(?i)f["'].*\b"#@, cps[6], e);
    }
    assert forall|pre: Seq<char>| #[trigger] seq_contains(((((pre + "|"@) + r"(?i)format!\s*\(.*\b"@) + e) + r"\b"@) + "|"@, call_alternative(cps[7], e) + "|"@) by {
        lemma_window(pre, r"(?i)format!\s*\(.*\b"@, cps[7], e);
    }
    assert forall|pre: Seq<char>| #[trigger] seq_ends_with((((pre + "|"@) + r"(?i)format!\s*\(.*\b"@) + e) + r"\b"@, call_alternative(cps[7], e)) by {
        lemma_window(pre, r"(?i)format!\s*\(.*\b"@, cps[7], e);
    }
    assert(cps.len() == 8);
    assert forall|k: int| 0 <= k < cps.len() - 1 implies seq_contains(
        exposure_pattern_text(e),
        #[trigger] call_alternative(cps[k], e) + "|"@,
    ) by {
        if k == 0 {
            assert(seq_contains(exposure_pattern_text(e), call_alternative(cps[0], e) + "|"@));
        }
        if k == 1 {
            assert(seq_contains(exposure_pattern_text(e), call_alternative(cps[1], e) + "|"@));
        }
        if k == 2 {
            assert(seq_contains(exposure_pattern_text(e), call_alternative(cps[2], e) + "|"@));
        }
        if k == 3 {
            assert(seq_contains(exposure_pattern_text(e), call_alternative(cps[3], e) + "|"@));
        }
        if k == 4 {
            assert(seq_contains(exposure_pattern_text(e), call_alternative(cps[4], e) + "|"@));
        }
        if k == 5 {
            assert(seq_contains(exposure_pattern_text(e), call_alternative(cps[5], e) + "|"@));
        }
        if k == 6 {
            assert(seq_contains(exposure_pattern_text(e), call_alternative(cps[6], e) + "|"@));
        }
    }
    assert(seq_ends_with(exposure_pattern_text(e), call_alternative(cps[7], e)));
    let head = ((r"\b"@ + e) + r#"\b\s*=\s*["'][^"']+["']"#@) + "|"@;
    let target = token_pattern_text(e) + r#"\s*=\s*["'][^"']+["']"#@ + "|"@;
    reveal_strlit(r"\b");
    reveal_strlit(r#"\b\s*=\s*["'][^"']+["']"#);
    reveal_strlit(r#"\s*=\s*["'][^"']+["']"#);
    assert(r#"\b\s*=\s*["'][^"']+["']"#@ =~= r"\b"@ + r#"\s*=\s*["'][^"']+["']"#@);
    assert(head =~= target);
    assert(head.subrange(0, target.len() as int) =~= target);
    assert(seq_starts_with(head, target));
    assert(seq_starts_with(exposure_pattern_text(e), target));
}

/// A line that the exposure pattern flags is recorded as an exposure of
/// that line: in a file that is neither an environment file nor a
/// configuration file, a line holding the token that the exposure pattern
/// matches adds exactly one exposure, on that line, with the line (trimmed
/// and shortened) as its context; it is logged output where the lower-cased
/// line mentions a console, logging, printing or echo.
pub proof fn law_flagged_line_is_recorded(ctx: ScanSpec, st: ScanState, ln: usize, line: Seq<char>)
    requires
        !ctx.is_env,
        ctx.risk.severity() < RiskLevel::Medium.severity(),
        !is_comment_line(trim(line)),
        regex_match_count(ctx.token, line) > 0,
        st.calls + regex_match_count(ctx.token, line) <= usize::MAX,
        !has_exposure_on(st, ln),
        regex_is_match(ctx.exposure, line),
        truncated(line) is Some,
    ensures
        line_step(ctx, st, ln, line) matches Some(s) && s.exposures == st.exposures.push(
            ExposureRecord { line: ln, kind: output_kind(lowercase(line)), context: truncated(line)->0 },
        ),
        seq_contains(lowercase(line), "console"@) ==> output_kind(lowercase(line)) == ExposureKind::LoggedOutput,
{
    let n = regex_match_count(ctx.token, line);
    let st1 = ScanState { calls: st.calls + n, occurrences: st.occurrences.push(ln), exposures: st.exposures };
    assert(!has_exposure_on(st1, ln));
}

/// The exposure pattern also holds, as a whole alternative, a dictionary or
/// object entry that maps the quoted token to a quoted value
/// (`"TOKEN": "value"`), whatever the (escaped) token `e`.
pub proof fn law_exposure_pattern_covers_dictionary_entries(e: Seq<char>)
    ensures
        seq_contains(
            exposure_pattern_text(e),
            "|"@ + r#"["']"#@ + e + r#"\s*["']\s*:\s*["'][^"']+["']"#@ + "|"@,
        ),
{
    let q = r#"["']"#@;
    let d = r#"\s*["']\s*:\s*["'][^"']+["']"#@;
    let t = "|"@ + q + e + d + "|"@;
    let pre = (r"\b"@ + e) + r#"\b\s*=\s*["'][^"']+["']"#@;
    let w = ((((pre + "|"@) + q) + e) + d) + "|"@;
    assert(w =~= pre + t);
    assert(w.subrange(pre.len() as int, (pre.len() + t.len()) as int) =~= t);
    assert(occurs_at(w, t, pre.len() as int));
    assert forall|a: Seq<char>, b: Seq<char>, p: Seq<char>| seq_contains(a, p) implies #[trigger] seq_contains(a + b, p) by {
        lemma_contains_append(a, b, p);
    }
    assert(seq_contains(w, t));
}

} // verus!
