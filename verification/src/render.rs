//! The text report: the lines that the command-line tool prints for an
//! analysis report.

use vstd::prelude::*;
use crate::cli::{shortened, try_shorten_path};
use crate::report::{
    exposed, exposure_label, exposure_records, file_records, is_exposed, is_sorted_order,
    lemma_filter_push, lemma_take_push, AnalysisReport, ExposureDetail, ExposureRecord, FileAnalysis,
    FileRecord, ReportRecord,
};
use crate::risk::{risk_icon, risk_marker};
use crate::text::string_from_chars;

verus! {

// ---------------------------------------------------------------------------
// Numbers
// ---------------------------------------------------------------------------

/// The character of a decimal digit.
pub open spec fn digit_char(d: nat) -> char {
    if d == 0 {
        '0'
    } else if d == 1 {
        '1'
    } else if d == 2 {
        '2'
    } else if d == 3 {
        '3'
    } else if d == 4 {
        '4'
    } else if d == 5 {
        '5'
    } else if d == 6 {
        '6'
    } else if d == 7 {
        '7'
    } else if d == 8 {
        '8'
    } else {
        '9'
    }
}

/// The decimal text of a number, as `{}` formats it.
pub open spec fn decimal(n: nat) -> Seq<char>
    decreases n,
{
    if n < 10 {
        seq![digit_char(n)]
    } else {
        decimal(n / 10) + seq![digit_char(n % 10)]
    }
}

fn digit_of(d: usize) -> (c: char)
    requires
        d < 10,
    ensures
        c == digit_char(d as nat),
{
    if d == 0 {
        '0'
    } else if d == 1 {
        '1'
    } else if d == 2 {
        '2'
    } else if d == 3 {
        '3'
    } else if d == 4 {
        '4'
    } else if d == 5 {
        '5'
    } else if d == 6 {
        '6'
    } else if d == 7 {
        '7'
    } else if d == 8 {
        '8'
    } else {
        '9'
    }
}

/// The decimal text of a number.
pub fn decimal_text(n: usize) -> (s: String)
    ensures
        s@ == decimal(n as nat),
    decreases n,
{
    let last = vec![digit_of(n % 10)];
    let tail = string_from_chars(&last, 0, 1);
    assert(last@.subrange(0, 1) =~= seq![digit_char((n % 10) as nat)]);
    if n < 10 {
        tail
    } else {
        let mut s = decimal_text(n / 10);
        s.append(tail.as_str());
        s
    }
}

// ---------------------------------------------------------------------------
// The lines
// ---------------------------------------------------------------------------

/// The top edge of a section box.
pub open spec fn box_top() -> Seq<char> {
    "╭─────────────────────────────────────────────────────────────╮"@
}

/// The bottom edge of a section box.
pub open spec fn box_bottom() -> Seq<char> {
    "╰─────────────────────────────────────────────────────────────╯"@
}

/// A section heading: the boxed title and a blank line.
pub open spec fn heading(title: Seq<char>) -> Seq<Seq<char>> {
    seq![box_top(), title, box_bottom(), Seq::<char>::empty()]
}

/// The tag of an exposure in a file's line: its line number and kind.
pub open spec fn exposure_tag(e: ExposureRecord) -> Seq<char> {
    "L"@ + decimal(e.line as nat) + ": "@ + exposure_label(e.kind)
}

/// The tags of exposures, joined by `, `.
pub open spec fn joined_tags(es: Seq<ExposureRecord>) -> Seq<char>
    decreases es.len(),
{
    if es.len() == 0 {
        Seq::empty()
    } else if es.len() == 1 {
        exposure_tag(es[0])
    } else {
        joined_tags(es.drop_last()) + ", "@ + exposure_tag(es.last())
    }
}

/// The line of a file in the file list: its risk marker, whether it is
/// exposed, its shortened path, its count and score, and its exposures; `None`
/// where shortening the path panics.
pub open spec fn file_line(f: FileRecord) -> Option<Seq<char>> {
    match shortened(f.path, 45) {
        Some(p) => Some(
            risk_marker(f.risk_level) + " "@ + (if f.has_exposure {
                "⚠️ "@
            } else {
                "   "@
            }) + " "@ + p + " ("@ + decimal(f.call_count as nat) + " calls, score: "@ + decimal(
                f.risk_score as nat,
            ) + ")"@ + (if f.has_exposure {
                " ["@ + joined_tags(f.exposures) + "]"@
            } else {
                Seq::<char>::empty()
            }),
        ),
        None => None,
    }
}

/// The file list lines for the files in `order`, from the `k`-th on.
pub open spec fn file_lines_from(fs: Seq<FileRecord>, order: Seq<usize>, k: int) -> Option<Seq<Seq<char>>>
    decreases order.len() - k,
{
    if k < 0 || k >= order.len() {
        Some(Seq::empty())
    } else {
        match (file_line(fs[order[k] as int]), file_lines_from(fs, order, k + 1)) {
            (Some(l), Some(rest)) => Some(seq![l] + rest),
            _ => None,
        }
    }
}

/// The detail line of an exposure.
pub open spec fn exposure_detail_line(e: ExposureRecord) -> Seq<char> {
    "      Line "@ + decimal(e.line as nat) + ": "@ + exposure_label(e.kind) + " - "@ + e.context
}

/// The detail lines of exposures.
pub open spec fn exposure_detail_lines(es: Seq<ExposureRecord>) -> Seq<Seq<char>> {
    es.map_values(|e: ExposureRecord| exposure_detail_line(e))
}

/// The lines for one exposed file: its marker and path, then its exposures.
pub open spec fn exposed_file_lines(f: FileRecord) -> Seq<Seq<char>> {
    seq!["  "@ + risk_marker(f.risk_level) + " → "@ + f.path] + exposure_detail_lines(f.exposures)
}

/// The lines for the exposed files, in order.
pub open spec fn exposed_lines(fs: Seq<FileRecord>) -> Seq<Seq<char>>
    decreases fs.len(),
{
    if fs.len() == 0 {
        Seq::empty()
    } else {
        exposed_lines(fs.drop_last()) + exposed_file_lines(fs.last())
    }
}

/// The advice that closes the recommendations.
pub open spec fn tips() -> Seq<Seq<char>> {
    seq![
        Seq::<char>::empty(),
        "  💡 Tips:"@,
        "     • Never log or print secret values directly"@,
        "     • Use '[REDACTED]' or mask tokens in debug output"@,
        "     • Never commit .env files or hardcoded secrets"@,
        "     • Consider using lazy-locker for secure secret management"@,
        "       https://github.com/WillIsback/lazy-locker"@,
        Seq::<char>::empty(),
    ]
}

/// The lines before the summary: the title and the facts of the run.
pub open spec fn intro_lines(r: ReportRecord, duration: Seq<char>) -> Seq<Seq<char>> {
    seq![Seq::<char>::empty()] + heading("│  🔐 Token Security Analysis Report                          │"@) + seq![
        "  Token:     "@ + r.token_name,
        "  Directory: "@ + r.search_dir,
        "  Duration:  "@ + duration,
        "  Files:     "@ + decimal(r.files_scanned as nat) + " scanned"@,
    ] + (if r.truncated {
        seq!["  ⚠️  Analysis was truncated (limit reached)"@]
    } else {
        Seq::<Seq<char>>::empty()
    }) + seq![Seq::<char>::empty()]
}

/// The summary lines.
pub open spec fn summary_lines(r: ReportRecord) -> Seq<Seq<char>> {
    heading("│  📊 Summary                                                  │"@) + seq![
        "  Total calls:  "@ + decimal(r.total_calls as nat) + " in "@ + decimal(r.files.len()) + " files"@,
        "  Risk score:   "@ + decimal(r.total_risk_score as nat) + " (critical files: "@ + decimal(
            r.critical_files as nat,
        ) + ")"@,
        if r.exposure_count > 0 {
            "  ⚠️  EXPOSED:   "@ + decimal(r.exposure_count as nat)
                + " files with potential plaintext exposure!"@
        } else {
            "  ✅ Secure:    No plaintext exposure detected"@
        },
        Seq::<char>::empty(),
    ] + heading("│  📁 Files                                                    │"@)
}

/// The recommendations, where the report has security issues.
pub open spec fn recommendation_lines(r: ReportRecord) -> Seq<Seq<char>> {
    if r.exposure_count > 0 {
        heading("│  🛡️  Security Recommendations                               │"@) + seq![
            "  The following files expose token values:"@,
            Seq::<char>::empty(),
        ] + exposed_lines(exposed(r.files)) + tips()
    } else {
        Seq::empty()
    }
}

/// The lines of the text report, with the files listed in `order`; `None`
/// where shortening a path panics.
pub open spec fn report_text(r: ReportRecord, order: Seq<usize>, duration: Seq<char>) -> Option<Seq<Seq<char>>> {
    if r.total_calls == 0 {
        Some(intro_lines(r, duration) + seq!["  ✅ No occurrences of '"@ + r.token_name + "' found."@])
    } else {
        match file_lines_from(r.files, order, 0) {
            Some(listed) => Some(
                intro_lines(r, duration) + summary_lines(r) + listed + seq![Seq::<char>::empty()]
                    + recommendation_lines(r),
            ),
            None => None,
        }
    }
}

// ---------------------------------------------------------------------------
// Building the lines
// ---------------------------------------------------------------------------

fn push_line(out: &mut Vec<String>, line: String)
    ensures
        final(out).deep_view() == old(out).deep_view().push(line@),
{
    out.push(line);
    assert(out.deep_view() =~= old(out).deep_view().push(line@));
}

fn push_text(out: &mut Vec<String>, line: &str)
    ensures
        final(out).deep_view() == old(out).deep_view().push(line@),
{
    push_line(out, line.to_owned());
}

fn push_heading(out: &mut Vec<String>, title: &str)
    ensures
        final(out).deep_view() == old(out).deep_view() + heading(title@),
{
    let ghost before = out.deep_view();
    push_text(out, "╭─────────────────────────────────────────────────────────────╮");
    push_text(out, title);
    push_text(out, "╰─────────────────────────────────────────────────────────────╯");
    push_text(out, "");
    assert(""@ =~= Seq::<char>::empty()) by {
        reveal_strlit("");
    }
    assert(out.deep_view() =~= before + heading(title@));
}

fn push_intro(out: &mut Vec<String>, r: &AnalysisReport, duration: &str)
    ensures
        final(out).deep_view() == old(out).deep_view() + intro_lines(r@, duration@),
{
    let ghost before = out.deep_view();
    assert(""@ =~= Seq::<char>::empty()) by {
        reveal_strlit("");
    }
    push_text(out, "");
    push_heading(out, "│  🔐 Token Security Analysis Report                          │");
    let mut l = "  Token:     ".to_owned();
    l.append(r.token_name.as_str());
    push_line(out, l);
    let mut l = "  Directory: ".to_owned();
    l.append(r.search_dir.as_str());
    push_line(out, l);
    let mut l = "  Duration:  ".to_owned();
    l.append(duration);
    push_line(out, l);
    let mut l = "  Files:     ".to_owned();
    l.append(decimal_text(r.files_scanned).as_str());
    l.append(" scanned");
    push_line(out, l);
    if r.truncated {
        push_text(out, "  ⚠️  Analysis was truncated (limit reached)");
    }
    push_text(out, "");
    assert(out.deep_view() =~= before + intro_lines(r@, duration@));
}

fn push_summary(out: &mut Vec<String>, r: &AnalysisReport)
    ensures
        final(out).deep_view() == old(out).deep_view() + summary_lines(r@),
{
    let ghost before = out.deep_view();
    assert(""@ =~= Seq::<char>::empty()) by {
        reveal_strlit("");
    }
    push_heading(out, "│  📊 Summary                                                  │");
    let mut l = "  Total calls:  ".to_owned();
    l.append(decimal_text(r.total_calls).as_str());
    l.append(" in ");
    l.append(decimal_text(r.files.len()).as_str());
    l.append(" files");
    push_line(out, l);
    let mut l = "  Risk score:   ".to_owned();
    l.append(decimal_text(r.total_risk_score).as_str());
    l.append(" (critical files: ");
    l.append(decimal_text(r.critical_files).as_str());
    l.append(")");
    push_line(out, l);
    if r.exposure_count > 0 {
        let mut l = "  ⚠️  EXPOSED:   ".to_owned();
        l.append(decimal_text(r.exposure_count).as_str());
        l.append(" files with potential plaintext exposure!");
        push_line(out, l);
    } else {
        push_text(out, "  ✅ Secure:    No plaintext exposure detected");
    }
    push_text(out, "");
    push_heading(out, "│  📁 Files                                                    │");
    assert(r@.files.len() == r.files@.len());
    assert(out.deep_view() =~= before + summary_lines(r@));
}

/// The tags of the exposures, joined by `, `.
fn joined_exposure_tags(es: &Vec<ExposureDetail>) -> (s: String)
    ensures
        s@ == joined_tags(exposure_records(es@)),
{
    let ghost recs = exposure_records(es@);
    let mut s = String::new();
    let n = es.len();
    assert(recs.take(0) =~= Seq::<ExposureRecord>::empty());
    for i in 0..n
        invariant
            n == es@.len(),
            recs == exposure_records(es@),
            s@ == joined_tags(recs.take(i as int)),
    {
        proof {
            lemma_take_push(recs, i as int);
        }
        let e = &es[i];
        assert(recs[i as int] == e@);
        if i > 0 {
            s.append(", ");
        }
        let mut tag = "L".to_owned();
        tag.append(decimal_text(e.line).as_str());
        tag.append(": ");
        tag.append(e.exposure_type.describe().as_str());
        assert(tag@ == exposure_tag(e@));
        if i == 0 {
            assert(s@ =~= Seq::<char>::empty());
            assert(recs.take(1) =~= seq![e@]);
        }
        s.append(tag.as_str());
        if i == 0 {
            assert(s@ =~= tag@);
        }
    }
    assert(recs.take(n as int) =~= recs);
    s
}

/// The line of a file in the file list, or `None` where shortening its path
/// panics.
fn file_line_text(f: &FileAnalysis) -> (r: Option<String>)
    ensures
        r is None <==> file_line(f@) is None,
        r matches Some(l) ==> file_line(f@) == Some(l@),
{
    let p = match try_shorten_path(f.path.as_str(), 45) {
        Some(p) => p,
        None => {
            return None;
        },
    };
    let mut l = risk_icon(&f.risk_level).to_owned();
    l.append(" ");
    if f.has_exposure {
        l.append("⚠️ ");
    } else {
        l.append("   ");
    }
    l.append(" ");
    l.append(p.as_str());
    l.append(" (");
    l.append(decimal_text(f.call_count).as_str());
    l.append(" calls, score: ");
    l.append(decimal_text(f.risk_score).as_str());
    l.append(")");
    if f.has_exposure {
        l.append(" [");
        l.append(joined_exposure_tags(&f.exposures).as_str());
        l.append("]");
    } else {
        proof {
            reveal_strlit("");
        }
        assert(l@ + Seq::<char>::empty() =~= l@);
    }
    Some(l)
}

/// The file list lines, in the given order.
fn push_file_lines(out: &mut Vec<String>, files: &Vec<FileAnalysis>, order: &Vec<usize>) -> (ok: bool)
    requires
        forall|k: int| 0 <= k < order@.len() ==> #[trigger] order@[k] < files@.len(),
    ensures
        ok <==> file_lines_from(file_records(files@), order@, 0) is Some,
        ok ==> final(out).deep_view() == old(out).deep_view() + file_lines_from(file_records(files@), order@, 0)->0,
{
    let ghost fs = file_records(files@);
    let ghost before = out.deep_view();
    let n = order.len();
    for k in 0..n
        invariant
            n == order@.len(),
            fs == file_records(files@),
            forall|j: int| 0 <= j < order@.len() ==> #[trigger] order@[j] < files@.len(),
            file_lines_from(fs, order@, 0) matches Some(all) ==> ({
                file_lines_from(fs, order@, k as int) matches Some(rest) && all == out.deep_view().subrange(before.len() as int, out.deep_view().len() as int) + rest
            }),
            file_lines_from(fs, order@, 0) is None ==> file_lines_from(fs, order@, k as int) is None,
            out.deep_view().len() >= before.len(),
            out.deep_view().subrange(0, before.len() as int) == before,
    {
        let idx = order[k];
        assert(order@[k as int] < files@.len());
        assert(fs[idx as int] == files@[idx as int]@);
        let ghost prev = out.deep_view();
        match file_line_text(&files[idx]) {
            Some(l) => {
                push_line(out, l);
                assert(out.deep_view().subrange(0, before.len() as int) =~= before);
                assert(out.deep_view().subrange(before.len() as int, out.deep_view().len() as int) =~= prev.subrange(before.len() as int, prev.len() as int).push(l@));
                proof {
                    if let Some(all) = file_lines_from(fs, order@, 0) {
                        let rest = file_lines_from(fs, order@, k + 1)->0;
                        assert(prev.subrange(before.len() as int, prev.len() as int) + (seq![l@] + rest) =~= prev.subrange(before.len() as int, prev.len() as int).push(l@) + rest);
                    }
                }
            },
            None => {
                return false;
            },
        }
    }
    proof {
        if let Some(all) = file_lines_from(fs, order@, 0) {
            assert(all + Seq::<Seq<char>>::empty() =~= all);
        }
        assert(out.deep_view() =~= before + out.deep_view().subrange(before.len() as int, out.deep_view().len() as int));
    }
    true
}

/// The lines for one exposed file.
fn push_exposed_file(out: &mut Vec<String>, f: &FileAnalysis)
    ensures
        final(out).deep_view() == old(out).deep_view() + exposed_file_lines(f@),
{
    let ghost before = out.deep_view();
    let mut l = "  ".to_owned();
    l.append(risk_icon(&f.risk_level));
    l.append(" → ");
    l.append(f.path.as_str());
    push_line(out, l);
    let ghost recs = exposure_records(f.exposures@);
    let n = f.exposures.len();
    for i in 0..n
        invariant
            n == f.exposures@.len(),
            recs == exposure_records(f.exposures@),
            out.deep_view() == before.push(l@) + exposure_detail_lines(recs.take(i as int)),
    {
        let e = &f.exposures[i];
        assert(recs[i as int] == e@);
        let mut d = "      Line ".to_owned();
        d.append(decimal_text(e.line).as_str());
        d.append(": ");
        d.append(e.exposure_type.describe().as_str());
        d.append(" - ");
        d.append(e.context.as_str());
        let ghost prev = out.deep_view();
        push_line(out, d);
        proof {
            lemma_take_push(recs, i as int);
            assert(exposure_detail_lines(recs.take(i + 1)) =~= exposure_detail_lines(recs.take(i as int)).push(exposure_detail_line(e@)));
        }
        assert(out.deep_view() =~= before.push(l@) + exposure_detail_lines(recs.take(i + 1)));
    }
    assert(recs.take(n as int) =~= recs);
    assert(out.deep_view() =~= before + exposed_file_lines(f@));
}

/// The lines for the exposed files.
fn push_exposed_files(out: &mut Vec<String>, r: &AnalysisReport)
    ensures
        final(out).deep_view() == old(out).deep_view() + exposed_lines(exposed(r@.files)),
{
    let ghost before = out.deep_view();
    let ghost fs = r@.files;
    let ghost pred = |f: FileRecord| is_exposed(f);
    let n = r.files.len();
    assert(exposed(fs.take(0)) =~= Seq::<FileRecord>::empty()) by {
        reveal_with_fuel(Seq::<_>::filter, 1);
    }
    for i in 0..n
        invariant
            n == r.files@.len(),
            fs == file_records(r.files@),
            fs == r@.files,
            pred == (|f: FileRecord| is_exposed(f)),
            out.deep_view() == before + exposed_lines(fs.take(i as int).filter(pred)),
    {
        let f = &r.files[i];
        assert(fs[i as int] == f@);
        proof {
            lemma_take_push(fs, i as int);
            lemma_filter_push(fs.take(i as int), fs[i as int], pred);
        }
        if f.has_exposure {
            let ghost prev = fs.take(i as int).filter(pred);
            push_exposed_file(out, f);
            assert(prev.push(f@).drop_last() =~= prev);
            assert(out.deep_view() =~= before + exposed_lines(prev.push(f@)));
        }
    }
    assert(fs.take(n as int) =~= fs);
}

/// The recommendations.
fn push_recommendations(out: &mut Vec<String>, r: &AnalysisReport)
    ensures
        final(out).deep_view() == old(out).deep_view() + recommendation_lines(r@),
{
    let ghost before = out.deep_view();
    if r.exposure_count > 0 {
        assert(""@ =~= Seq::<char>::empty()) by {
            reveal_strlit("");
        }
        push_heading(out, "│  🛡️  Security Recommendations                               │");
        push_text(out, "  The following files expose token values:");
        push_text(out, "");
        let ghost mid = out.deep_view();
        push_exposed_files(out, r);
        let ghost after_files = out.deep_view();
        push_text(out, "");
        push_text(out, "  💡 Tips:");
        push_text(out, "     • Never log or print secret values directly");
        push_text(out, "     • Use '[REDACTED]' or mask tokens in debug output");
        push_text(out, "     • Never commit .env files or hardcoded secrets");
        push_text(out, "     • Consider using lazy-locker for secure secret management");
        push_text(out, "       https://github.com/WillIsback/lazy-locker");
        push_text(out, "");
        assert(out.deep_view() =~= after_files + tips());
        assert(out.deep_view() =~= before + recommendation_lines(r@));
    } else {
        assert(out.deep_view() =~= before + Seq::<Seq<char>>::empty());
    }
}

/// The lines of the text report for an analysis report, with the duration
/// already formatted; `None` where shortening a path panics.
pub fn report_lines(r: &AnalysisReport, duration: &str) -> (out: Option<Vec<String>>)
    ensures
        exists|order: Seq<usize>|
            #[trigger] is_sorted_order(r@.files, order) && match out {
                Some(lines) => report_text(r@, order, duration@) == Some(lines.deep_view()),
                None => report_text(r@, order, duration@) is None,
            },
{
    let order = r.files_sorted_order();
    let mut out: Vec<String> = Vec::new();
    assert(out.deep_view() =~= Seq::<Seq<char>>::empty());
    push_intro(&mut out, r, duration);
    if r.total_calls == 0 {
        let mut l = "  ✅ No occurrences of '".to_owned();
        l.append(r.token_name.as_str());
        l.append("' found.");
        let ghost before = out.deep_view();
        push_line(&mut out, l);
        assert(out.deep_view() =~= before + seq![l@]);
        assert(is_sorted_order(r@.files, order@));
        return Some(out);
    }
    push_summary(&mut out, r);
    assert(forall|k: int| 0 <= k < order@.len() ==> #[trigger] order@[k] < r@.files.len());
    let ghost before_files = out.deep_view();
    if !push_file_lines(&mut out, &r.files, &order) {
        assert(is_sorted_order(r@.files, order@));
        return None;
    }
    assert(""@ =~= Seq::<char>::empty()) by {
        reveal_strlit("");
    }
    push_text(&mut out, "");
    push_recommendations(&mut out, r);
    assert(is_sorted_order(r@.files, order@));
    assert(out.deep_view() =~= report_text(r@, order@, duration@)->0);
    Some(out)
}

} // verus!
