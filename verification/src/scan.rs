//! Scanning the text of one file for a token: where it occurs, and whether
//! its value is exposed (hardcoded, logged, or held in a secrets file).

use vstd::prelude::*;
use vstd::utf8::encode_utf8;
use crate::paths::{file_name_of, path_file_name};
use crate::pattern::{
    compile_regex, count_matches, first_captures, is_match, regex_captures, regex_compiles,
    regex_is_match, regex_match_count, CompiledRegex,
};
use crate::report::{exposure_records, ExposureDetail, ExposureKind, ExposureRecord, ExposureType, FileAnalysis, FileRecord};
use crate::risk::{get_file_risk_level, risk_level_label, risk_level_name, risk_level_of, RiskLevel};
use crate::text::{
    byte_len, byte_prefix, byte_suffix, bytes_text, chars_of, cuttable, lines_of, lowercase,
    seq_contains, seq_starts_with, str_contains, str_equal, str_starts_with, string_from_chars,
    text_lines, to_lowercase, trim, trim_bounds,
};

verus! {

// ---------------------------------------------------------------------------
// Known token prefixes
// ---------------------------------------------------------------------------

/// Known token prefixes from popular services, with what each one marks.
pub open spec fn known_token_prefixes() -> Seq<(&'static str, &'static str)> {
    seq![
        ("ghp_", "GitHub Personal Access Token"),
        ("gho_", "GitHub OAuth Token"),
        ("ghu_", "GitHub User-to-Server Token"),
        ("ghs_", "GitHub Server-to-Server Token"),
        ("ghr_", "GitHub Refresh Token"),
        ("AKIA", "AWS Access Key ID"),
        ("ABIA", "AWS STS Token"),
        ("ACCA", "AWS Context-specific Credential"),
        ("ASIA", "AWS Temporary Access Key"),
        ("xoxb-", "Slack Bot Token"),
        ("xoxp-", "Slack User Token"),
        ("xoxa-", "Slack App Token"),
        ("xoxr-", "Slack Refresh Token"),
        ("sk_live_", "Stripe Live Secret Key"),
        ("sk_test_", "Stripe Test Secret Key"),
        ("pk_live_", "Stripe Live Publishable Key"),
        ("rk_live_", "Stripe Live Restricted Key"),
        ("sk-", "OpenAI API Key"),
        ("sk-ant-", "Anthropic API Key"),
        ("AIza", "Google API Key"),
        ("hf_", "Hugging Face Token"),
        ("npm_", "npm Access Token"),
        ("pypi-", "PyPI API Token"),
        ("NDc", "Discord Bot Token (Base64)"),
        ("MTk", "Discord Bot Token (Base64)"),
        ("bot", "Telegram Bot Token"),
        ("SK", "Twilio API Key"),
        ("SG.", "SendGrid API Key"),
        ("key-", "Mailgun API Key"),
        ("dop_v1_", "DigitalOcean Personal Access Token"),
        ("doo_v1_", "DigitalOcean OAuth Token"),
        ("vercel_", "Vercel Token"),
        ("sbp_", "Supabase Token"),
        ("pscale_", "PlanetScale Token"),
        ("railway_", "Railway Token"),
        ("rnd_", "Render Token"),
        ("netlify_", "Netlify Token"),
    ]
}

/// Known token prefixes from popular services, with what each one marks.
pub fn known_token_prefix_table() -> (v: Vec<(&'static str, &'static str)>)
    ensures
        v@ == known_token_prefixes(),
{
    let v = vec![
        ("ghp_", "GitHub Personal Access Token"),
        ("gho_", "GitHub OAuth Token"),
        ("ghu_", "GitHub User-to-Server Token"),
        ("ghs_", "GitHub Server-to-Server Token"),
        ("ghr_", "GitHub Refresh Token"),
        ("AKIA", "AWS Access Key ID"),
        ("ABIA", "AWS STS Token"),
        ("ACCA", "AWS Context-specific Credential"),
        ("ASIA", "AWS Temporary Access Key"),
        ("xoxb-", "Slack Bot Token"),
        ("xoxp-", "Slack User Token"),
        ("xoxa-", "Slack App Token"),
        ("xoxr-", "Slack Refresh Token"),
        ("sk_live_", "Stripe Live Secret Key"),
        ("sk_test_", "Stripe Test Secret Key"),
        ("pk_live_", "Stripe Live Publishable Key"),
        ("rk_live_", "Stripe Live Restricted Key"),
        ("sk-", "OpenAI API Key"),
        ("sk-ant-", "Anthropic API Key"),
        ("AIza", "Google API Key"),
        ("hf_", "Hugging Face Token"),
        ("npm_", "npm Access Token"),
        ("pypi-", "PyPI API Token"),
        ("NDc", "Discord Bot Token (Base64)"),
        ("MTk", "Discord Bot Token (Base64)"),
        ("bot", "Telegram Bot Token"),
        ("SK", "Twilio API Key"),
        ("SG.", "SendGrid API Key"),
        ("key-", "Mailgun API Key"),
        ("dop_v1_", "DigitalOcean Personal Access Token"),
        ("doo_v1_", "DigitalOcean OAuth Token"),
        ("vercel_", "Vercel Token"),
        ("sbp_", "Supabase Token"),
        ("pscale_", "PlanetScale Token"),
        ("railway_", "Railway Token"),
        ("rnd_", "Render Token"),
        ("netlify_", "Netlify Token"),
    ];
    assert(v@ =~= known_token_prefixes());
    v
}

/// The description of the first known prefix, from entry `i` of the table on,
/// that `v` begins with.
pub open spec fn prefix_description_from(v: Seq<char>, i: int) -> Option<Seq<char>>
    decreases known_token_prefixes().len() - i,
{
    if i < 0 || i >= known_token_prefixes().len() {
        None
    } else if seq_starts_with(v, known_token_prefixes()[i].0@) {
        Some(known_token_prefixes()[i].1@)
    } else {
        prefix_description_from(v, i + 1)
    }
}

/// The description of the first known prefix in the table that `v` begins
/// with, if any.
pub open spec fn known_prefix_description(v: Seq<char>) -> Option<Seq<char>> {
    prefix_description_from(v, 0)
}

/// Checks if a value matches a known token prefix, and says which.
pub fn detect_known_prefix(value: &str) -> (r: Option<&'static str>)
    ensures
        r is None <==> known_prefix_description(value@) is None,
        r matches Some(d) ==> known_prefix_description(value@) == Some(d@),
{
    let table = known_token_prefix_table();
    let mut i: usize = 0;
    while i < table.len()
        invariant
            table@ == known_token_prefixes(),
            i <= table@.len(),
            known_prefix_description(value@) == prefix_description_from(value@, i as int),
        decreases table@.len() - i,
    {
        let (prefix, description) = table[i];
        if str_starts_with(value, prefix) {
            return Some(description);
        }
        i = i + 1;
    }
    None
}

// ---------------------------------------------------------------------------
// Values: placeholders, secrets, redaction
// ---------------------------------------------------------------------------

/// A lower-cased value that is an obvious placeholder rather than a secret.
pub open spec fn is_placeholder(lower: Seq<char>) -> bool {
    ||| seq_contains(lower, "example"@)
    ||| seq_contains(lower, "placeholder"@)
    ||| seq_contains(lower, "your_"@)
    ||| seq_contains(lower, "xxx"@)
    ||| seq_contains(lower, "todo"@)
    ||| seq_contains(lower, "replace"@)
    ||| lower == "test"@
    ||| lower == "secret"@
    ||| lower == "password"@
}

/// A value that looks like a real secret: at least 8 bytes long, not a
/// placeholder, and with a character entropy above the threshold (which
/// `entropy_exceeds` reports).
pub open spec fn high_entropy_secret(v: Seq<char>, entropy_exceeds: bool) -> bool {
    byte_len(v) >= 8 && !is_placeholder(lowercase(v)) && entropy_exceeds
}

/// Checks if a string appears to be a high-entropy secret, given whether its
/// Shannon entropy exceeds 3.5 bits.
pub fn is_high_entropy_secret(value: &str, entropy_exceeds: bool) -> (b: bool)
    ensures
        b == high_entropy_secret(value@, entropy_exceeds),
{
    if value.as_bytes().len() < 8 {
        return false;
    }
    let lower = to_lowercase(value);
    let l = lower.as_str();
    if str_contains(l, "example") || str_contains(l, "placeholder") || str_contains(l, "your_")
        || str_contains(l, "xxx") || str_contains(l, "todo") || str_contains(l, "replace")
        || str_equal(l, "test") || str_equal(l, "secret") || str_equal(l, "password") {
        return false;
    }
    entropy_exceeds
}

/// A value shown safely: `***` for a value of at most 8 bytes, otherwise its
/// first and last 4 bytes around `...`; `None` where those cuts split a
/// character (slicing there panics).
pub open spec fn redacted(v: Seq<char>) -> Option<Seq<char>> {
    let b = encode_utf8(v);
    if b.len() <= 8 {
        Some("***"@)
    } else if cuttable(v, 4) && cuttable(v, b.len() - 4) {
        Some(bytes_text(b, 0, 4) + "..."@ + bytes_text(b, b.len() - 4, b.len() as int))
    } else {
        None
    }
}

/// Redacts a secret value for safe display.
pub fn redact_value(value: &str) -> (r: Option<String>)
    ensures
        r is None <==> redacted(value@) is None,
        r matches Some(s) ==> redacted(value@) == Some(s@),
{
    let n = value.as_bytes().len();
    if n <= 8 {
        return Some("***".to_owned());
    }
    let head = match byte_prefix(value, 4) {
        Some(h) => h,
        None => return None,
    };
    let tail = match byte_suffix(value, n - 4) {
        Some(t) => t,
        None => return None,
    };
    let mut s = head;
    s.append("...");
    s.append(tail.as_str());
    Some(s)
}

/// A line shown in a report: trimmed, and cut to its first 47 bytes and `...`
/// where it is longer than 50 bytes; `None` where that cut splits a character.
pub open spec fn truncated(line: Seq<char>) -> Option<Seq<char>> {
    let t = trim(line);
    let b = encode_utf8(t);
    if b.len() <= 50 {
        Some(t)
    } else if cuttable(t, 47) {
        Some(bytes_text(b, 0, 47) + "..."@)
    } else {
        None
    }
}

/// The trimmed text of a line.
pub fn trimmed_line(line: &str) -> (r: String)
    ensures
        r@ == trim(line@),
{
    let cs = chars_of(line);
    let (a, b) = trim_bounds(&cs);
    string_from_chars(&cs, a, b)
}

/// Truncates a line for display.
pub fn truncate_line(line: &str) -> (r: Option<String>)
    ensures
        r is None <==> truncated(line@) is None,
        r matches Some(s) ==> truncated(line@) == Some(s@),
{
    let t = trimmed_line(line);
    let n = t.as_str().as_bytes().len();
    if n <= 50 {
        return Some(t);
    }
    match byte_prefix(t.as_str(), 47) {
        Some(h) => {
            let mut s = h;
            s.append("...");
            Some(s)
        },
        None => None,
    }
}

// ---------------------------------------------------------------------------
// Lines
// ---------------------------------------------------------------------------

/// A trimmed line that is a comment: it begins with `#`, `//`, `/*` or `*`.
pub open spec fn is_comment_line(t: Seq<char>) -> bool {
    ||| seq_starts_with(t, "#"@)
    ||| seq_starts_with(t, "//"@)
    ||| seq_starts_with(t, "/*"@)
    ||| seq_starts_with(t, "*"@)
}

/// A value that refers to the environment instead of holding a secret.
pub open spec fn is_env_reference(v: Seq<char>) -> bool {
    ||| seq_starts_with(v, "$"@)
    ||| seq_contains(v, "env."@)
    ||| seq_contains(v, "ENV["@)
    ||| seq_contains(v, "getenv"@)
}

/// The kind of a line that the exposure patterns flag: logged output where
/// the lower-cased line mentions logging, printing, a console or echo, a
/// hardcoded value otherwise.
pub open spec fn output_kind(lower_line: Seq<char>) -> ExposureKind {
    if seq_contains(lower_line, "log"@) || seq_contains(lower_line, "print"@) || seq_contains(
        lower_line,
        "console"@,
    ) || seq_contains(lower_line, "echo"@) {
        ExposureKind::LoggedOutput
    } else {
        ExposureKind::HardcodedValue
    }
}

/// The pattern that picks the value out of an assignment (`= "..."`, `: '...'`
/// or `= token-like-text`).
pub open spec fn value_pattern_text() -> Seq<char> {
    r#"[=:]\s*["']([^"']+)["']|[=:]\s*([a-zA-Z0-9_\-./+]{8,})"#@
}

/// The value among the capture groups: group 1 where it took part, else
/// group 2.
pub open spec fn pick_value(groups: Seq<Option<Seq<char>>>) -> Option<Seq<char>> {
    if groups.len() > 1 && groups[1] is Some {
        groups[1]
    } else if groups.len() > 2 {
        groups[2]
    } else {
        None
    }
}

/// What a file scan depends on besides the text: the token and exposure
/// patterns, the value pattern (where it compiles), whether the file is an
/// environment file, its risk level, and the values whose entropy is high.
pub struct ScanSpec {
    pub token: Seq<char>,
    pub exposure: Seq<char>,
    pub value: Option<Seq<char>>,
    pub is_env: bool,
    pub risk: RiskLevel,
    pub high: Seq<Seq<char>>,
}

/// What a file scan has found so far.
pub struct ScanState {
    pub calls: nat,
    pub occurrences: Seq<usize>,
    pub exposures: Seq<ExposureRecord>,
}

/// The value assigned on a line, where the value pattern finds one.
pub open spec fn captured_value(ctx: ScanSpec, line: Seq<char>) -> Option<Seq<char>> {
    match ctx.value {
        Some(vp) => match regex_captures(vp, line) {
            Some(groups) => pick_value(groups),
            None => None,
        },
        None => None,
    }
}

/// The exposure recorded for a value `v` on line `ln`: a known prefix, else a
/// high-entropy secret (both with the value redacted), else the fallback kind
/// and context. `None` where redaction panics.
pub open spec fn classify(
    ctx: ScanSpec,
    v: Seq<char>,
    ln: usize,
    fallback: ExposureKind,
    fallback_context: Seq<char>,
) -> Option<ExposureRecord> {
    match known_prefix_description(v) {
        Some(d) => match redacted(v) {
            Some(c) => Some(ExposureRecord { line: ln, kind: ExposureKind::KnownTokenPrefix(d), context: c }),
            None => None,
        },
        None => if high_entropy_secret(v, ctx.high.contains(v)) {
            match redacted(v) {
                Some(c) => Some(ExposureRecord { line: ln, kind: ExposureKind::HighEntropy, context: c }),
                None => None,
            }
        } else {
            Some(ExposureRecord { line: ln, kind: fallback, context: fallback_context })
        },
    }
}

/// `st` with one more exposure.
pub open spec fn push_exposure(st: ScanState, e: ExposureRecord) -> ScanState {
    ScanState { calls: st.calls, occurrences: st.occurrences, exposures: st.exposures.push(e) }
}

/// Some exposure was recorded on line `ln`.
pub open spec fn has_exposure_on(st: ScanState, ln: usize) -> bool {
    exists|i: int| 0 <= i < st.exposures.len() && #[trigger] st.exposures[i].line == ln
}

/// The step for a line of an environment file: its value, if any, is
/// recorded.
pub open spec fn env_line_step(ctx: ScanSpec, st: ScanState, ln: usize, value: Option<Seq<char>>) -> Option<ScanState> {
    match value {
        Some(v) => match classify(ctx, v, ln, ExposureKind::EnvironmentFile, ctx.token + "=***"@) {
            Some(e) => Some(push_exposure(st, e)),
            None => None,
        },
        None => Some(st),
    }
}

/// The check of a line against the exposure patterns, recording at most one
/// exposure per line.
pub open spec fn pattern_step(ctx: ScanSpec, st: ScanState, ln: usize, line: Seq<char>) -> Option<ScanState> {
    if regex_is_match(ctx.exposure, line) && !has_exposure_on(st, ln) {
        match truncated(line) {
            Some(c) => Some(push_exposure(st, ExposureRecord { line: ln, kind: output_kind(lowercase(line)), context: c })),
            None => None,
        }
    } else {
        Some(st)
    }
}

/// The step for a line of a file that is not an environment file: in a
/// configuration file, a value that refers to the environment ends the line's
/// checks, another value is recorded; then the exposure patterns.
pub open spec fn other_line_step(
    ctx: ScanSpec,
    st: ScanState,
    ln: usize,
    line: Seq<char>,
    value: Option<Seq<char>>,
) -> Option<ScanState> {
    let is_config = ctx.risk.severity() >= RiskLevel::Medium.severity();
    match value {
        Some(v) => if is_config {
            if is_env_reference(v) {
                Some(st)
            } else {
                match classify(ctx, v, ln, ExposureKind::ConfigFile, "Hardcoded in "@ + risk_level_label(ctx.risk)) {
                    Some(e) => pattern_step(ctx, push_exposure(st, e), ln, line),
                    None => None,
                }
            }
        } else {
            pattern_step(ctx, st, ln, line)
        },
        None => pattern_step(ctx, st, ln, line),
    }
}

/// The step for line `ln`: comment lines and lines without the token leave
/// the state as it is; otherwise the token's occurrences are counted, the
/// line is noted, and its exposures are recorded. `None` where the step
/// cannot be taken (an overflowing count or a cut through a character).
pub open spec fn line_step(ctx: ScanSpec, st: ScanState, ln: usize, line: Seq<char>) -> Option<ScanState> {
    if is_comment_line(trim(line)) {
        Some(st)
    } else {
        let n = regex_match_count(ctx.token, line);
        if n == 0 {
            Some(st)
        } else if st.calls + n > usize::MAX {
            None
        } else {
            let st1 = ScanState {
                calls: st.calls + n,
                occurrences: st.occurrences.push(ln),
                exposures: st.exposures,
            };
            let value = captured_value(ctx, line);
            if ctx.is_env {
                env_line_step(ctx, st1, ln, value)
            } else {
                other_line_step(ctx, st1, ln, line, value)
            }
        }
    }
}

/// The scan of `lines[k..]` from state `st`, line `k` having number `k + 1`.
pub open spec fn scan_from(ctx: ScanSpec, lines: Seq<Seq<char>>, k: int, st: ScanState) -> Option<ScanState>
    decreases lines.len() - k,
{
    if k < 0 || k >= lines.len() {
        Some(st)
    } else {
        match line_step(ctx, st, (k + 1) as usize, lines[k]) {
            Some(st2) => scan_from(ctx, lines, k + 1, st2),
            None => None,
        }
    }
}

/// The file name marks an environment file (it contains `.env`).
pub open spec fn is_env_path(path: Seq<char>) -> bool {
    match path_file_name(path) {
        Some(name) => seq_contains(lowercase(name), ".env"@),
        None => false,
    }
}

/// The context of a scan of the file at `path`.
pub open spec fn scan_context(
    path: Seq<char>,
    token: Seq<char>,
    exposure: Seq<char>,
    high: Seq<Seq<char>>,
) -> ScanSpec {
    ScanSpec {
        token,
        exposure,
        value: if regex_compiles(value_pattern_text()) {
            Some(value_pattern_text())
        } else {
            None
        },
        is_env: is_env_path(path),
        risk: risk_level_of(path),
        high,
    }
}

/// The state before the first line.
pub open spec fn empty_scan() -> ScanState {
    ScanState { calls: 0, occurrences: Seq::empty(), exposures: Seq::empty() }
}

/// The analysis of the file at `path` with text `content`, or `None` where
/// the analysis cannot complete on it.
pub open spec fn file_analysis_of(
    path: Seq<char>,
    content: Seq<char>,
    token: Seq<char>,
    exposure: Seq<char>,
    high: Seq<Seq<char>>,
) -> Option<FileRecord> {
    let ctx = scan_context(path, token, exposure, high);
    match scan_from(ctx, lines_of(content), 0, empty_scan()) {
        Some(st) => {
            let score = st.calls * ctx.risk.severity();
            if score > usize::MAX {
                None
            } else {
                Some(
                    FileRecord {
                        path,
                        call_count: st.calls as usize,
                        has_exposure: st.exposures.len() > 0,
                        risk_level: ctx.risk,
                        risk_score: score as usize,
                        exposures: st.exposures,
                        exposure_lines: st.exposures.map_values(|e: ExposureRecord| e.line),
                        occurrence_lines: st.occurrences,
                    },
                )
            }
        },
        None => None,
    }
}

// ---------------------------------------------------------------------------
// Executable scan
// ---------------------------------------------------------------------------

/// The compiled token and exposure patterns of an analysis.
pub struct AnalysisPatterns {
    token: CompiledRegex,
    exposure: CompiledRegex,
}

impl AnalysisPatterns {
    /// The text of the token pattern.
    pub closed spec fn token_pattern(&self) -> Seq<char> {
        self.token@
    }

    /// The text of the exposure pattern.
    pub closed spec fn exposure_pattern(&self) -> Seq<char> {
        self.exposure@
    }

    /// Pairs a compiled token pattern with a compiled exposure pattern.
    pub(crate) fn new(token: CompiledRegex, exposure: CompiledRegex) -> (p: Self)
        ensures
            p.token_pattern() == token@,
            p.exposure_pattern() == exposure@,
    {
        AnalysisPatterns { token, exposure }
    }

    /// The text of the token pattern.
    pub fn token_text(&self) -> (s: &str)
        ensures
            s@ == self.token_pattern(),
    {
        self.token.pattern_text()
    }

    /// The text of the exposure pattern.
    pub fn exposure_text(&self) -> (s: &str)
        ensures
            s@ == self.exposure_pattern(),
    {
        self.exposure.pattern_text()
    }
}

/// What has been found so far in a file.
struct ScanAcc {
    calls: usize,
    occurrences: Vec<usize>,
    exposures: Vec<ExposureDetail>,
}

impl View for ScanAcc {
    type V = ScanState;

    closed spec fn view(&self) -> ScanState {
        ScanState {
            calls: self.calls as nat,
            occurrences: self.occurrences@,
            exposures: exposure_records(self.exposures@),
        }
    }
}

/// What a file scan depends on, compiled and ready.
struct ScanCtx<'a> {
    patterns: &'a AnalysisPatterns,
    value: Option<CompiledRegex>,
    is_env: bool,
    risk: RiskLevel,
    high: &'a Vec<String>,
    env_context: String,
    config_context: String,
}

impl<'a> ScanCtx<'a> {
    closed spec fn spec(&self) -> ScanSpec {
        ScanSpec {
            token: self.patterns.token_pattern(),
            exposure: self.patterns.exposure_pattern(),
            value: match self.value {
                Some(r) => Some(r@),
                None => None,
            },
            is_env: self.is_env,
            risk: self.risk,
            high: self.high.deep_view(),
        }
    }

    closed spec fn wf(&self) -> bool {
        &&& self.env_context@ == self.patterns.token_pattern() + "=***"@
        &&& self.config_context@ == "Hardcoded in "@ + risk_level_label(self.risk)
    }
}

/// Whether `v` is one of the listed values.
fn listed(list: &Vec<String>, v: &str) -> (b: bool)
    ensures
        b == list.deep_view().contains(v@),
{
    let n = list.len();
    for i in 0..n
        invariant
            n == list@.len(),
            forall|j: int| 0 <= j < i ==> list.deep_view()[j] != v@,
    {
        if str_equal(list[i].as_str(), v) {
            assert(list.deep_view()[i as int] == v@);
            return true;
        }
    }
    false
}

/// The value among the capture groups.
fn pick(groups: &Vec<Option<String>>) -> (r: Option<String>)
    ensures
        r.deep_view() == pick_value(groups.deep_view()),
{
    if groups.len() > 1 {
        match &groups[1] {
            Some(s) => {
                return Some(s.clone());
            },
            None => {},
        }
    }
    if groups.len() > 2 {
        match &groups[2] {
            Some(s) => Some(s.clone()),
            None => None,
        }
    } else {
        None
    }
}

/// The value assigned on a line.
fn captured(ctx: &ScanCtx, line: &str) -> (r: Option<String>)
    ensures
        r.deep_view() == captured_value(ctx.spec(), line@),
{
    match &ctx.value {
        Some(vre) => match first_captures(vre, line) {
            Some(groups) => pick(&groups),
            None => None,
        },
        None => None,
    }
}

/// Whether a value refers to the environment.
fn env_reference(v: &str) -> (b: bool)
    ensures
        b == is_env_reference(v@),
{
    str_starts_with(v, "$") || str_contains(v, "env.") || str_contains(v, "ENV[") || str_contains(
        v,
        "getenv",
    )
}

/// The kind of a flagged line, from its lower-cased text.
fn output_kind_of(lower_line: &str) -> (k: ExposureType)
    ensures
        k@ == output_kind(lower_line@),
{
    if str_contains(lower_line, "log") || str_contains(lower_line, "print") || str_contains(
        lower_line,
        "console",
    ) || str_contains(lower_line, "echo") {
        ExposureType::LoggedOutput
    } else {
        ExposureType::HardcodedValue
    }
}

/// The exposure recorded for value `v` on line `ln`.
fn classify_value(
    ctx: &ScanCtx,
    v: &str,
    ln: usize,
    fallback: ExposureType,
    fallback_context: String,
) -> (r: Option<ExposureDetail>)
    ensures
        r is None <==> classify(ctx.spec(), v@, ln, fallback@, fallback_context@) is None,
        r matches Some(e) ==> classify(ctx.spec(), v@, ln, fallback@, fallback_context@) == Some(e@),
{
    match detect_known_prefix(v) {
        Some(d) => match redact_value(v) {
            Some(c) => Some(ExposureDetail { line: ln, exposure_type: ExposureType::KnownTokenPrefix(d.to_owned()), context: c }),
            None => None,
        },
        None => {
            let entropy_exceeds = listed(ctx.high, v);
            if is_high_entropy_secret(v, entropy_exceeds) {
                match redact_value(v) {
                    Some(c) => Some(ExposureDetail { line: ln, exposure_type: ExposureType::HighEntropy, context: c }),
                    None => None,
                }
            } else {
                Some(ExposureDetail { line: ln, exposure_type: fallback, context: fallback_context })
            }
        },
    }
}

/// Whether a trimmed line is a comment.
fn comment_line(t: &str) -> (b: bool)
    ensures
        b == is_comment_line(t@),
{
    str_starts_with(t, "#") || str_starts_with(t, "//") || str_starts_with(t, "/*")
        || str_starts_with(t, "*")
}

/// One line of the scan.
fn scan_line(ctx: &ScanCtx, st: ScanAcc, ln: usize, line: &str) -> (r: Option<ScanAcc>)
    requires
        ctx.wf(),
        forall|i: int| 0 <= i < st@.exposures.len() ==> #[trigger] st@.exposures[i].line < ln,
    ensures
        r is None <==> line_step(ctx.spec(), st@, ln, line@) is None,
        r matches Some(s) ==> {
            &&& line_step(ctx.spec(), st@, ln, line@) == Some(s@)
            &&& forall|i: int| 0 <= i < s@.exposures.len() ==> #[trigger] s@.exposures[i].line <= ln
        },
{
    let ghost spec = ctx.spec();
    let ghost st0 = st@;
    let t = trimmed_line(line);
    if comment_line(t.as_str()) {
        return Some(st);
    }
    let n = count_matches(&ctx.patterns.token, line);
    if n == 0 {
        return Some(st);
    }
    if st.calls > usize::MAX - n {
        return None;
    }
    let mut st = st;
    st.calls = st.calls + n;
    st.occurrences.push(ln);
    let ghost st1 = st@;
    assert(st1 == ScanState { calls: (st0.calls + n) as nat, occurrences: st0.occurrences.push(ln), exposures: st0.exposures });
    let value = captured(ctx, line);
    if ctx.is_env {
        match value {
            Some(v) => match classify_value(ctx, v.as_str(), ln, ExposureType::EnvironmentFile, ctx.env_context.clone()) {
                Some(e) => {
                    st.exposures.push(e);
                    assert(exposure_records(st.exposures@) =~= st1.exposures.push(e@));
                    Some(st)
                },
                None => None,
            },
            None => Some(st),
        }
    } else {
        let is_config = ctx.risk.at_least(RiskLevel::Medium);
        let mut pushed = false;
        match &value {
            Some(v) => {
                if is_config {
                    if env_reference(v.as_str()) {
                        return Some(st);
                    }
                    match classify_value(ctx, v.as_str(), ln, ExposureType::ConfigFile, ctx.config_context.clone()) {
                        Some(e) => {
                            st.exposures.push(e);
                            assert(exposure_records(st.exposures@) =~= st1.exposures.push(e@));
                            pushed = true;
                        },
                        None => {
                            return None;
                        },
                    }
                }
            },
            None => {},
        }
        let ghost st2 = st@;
        assert(has_exposure_on(st2, ln) == pushed) by {
            if pushed {
                assert(st2.exposures[st2.exposures.len() - 1].line == ln);
            } else {
                assert(st2.exposures == st0.exposures);
            }
        }
        if !pushed && is_match(&ctx.patterns.exposure, line) {
            let lower = to_lowercase(line);
            let kind = output_kind_of(lower.as_str());
            match truncate_line(line) {
                Some(c) => {
                    let e = ExposureDetail { line: ln, exposure_type: kind, context: c };
                    st.exposures.push(e);
                    assert(exposure_records(st.exposures@) =~= st2.exposures.push(e@));
                },
                None => {
                    return None;
                },
            }
        }
        Some(st)
    }
}

/// The scan of all lines.
fn scan_lines(ctx: &ScanCtx, lines: &Vec<String>) -> (r: Option<ScanAcc>)
    requires
        ctx.wf(),
    ensures
        r is None <==> scan_from(ctx.spec(), lines.deep_view(), 0, empty_scan()) is None,
        r matches Some(s) ==> scan_from(ctx.spec(), lines.deep_view(), 0, empty_scan()) == Some(s@),
{
    let mut st = ScanAcc { calls: 0, occurrences: Vec::new(), exposures: Vec::new() };
    assert(st@ == empty_scan()) by {
        assert(exposure_records(st.exposures@) =~= Seq::<ExposureRecord>::empty());
    }
    let n = lines.len();
    let mut k: usize = 0;
    while k < n
        invariant
            ctx.wf(),
            n == lines@.len(),
            k <= n,
            scan_from(ctx.spec(), lines.deep_view(), 0, empty_scan()) == scan_from(ctx.spec(), lines.deep_view(), k as int, st@),
            forall|i: int| 0 <= i < st@.exposures.len() ==> #[trigger] st@.exposures[i].line <= k,
        decreases n - k,
    {
        assert(lines.deep_view()[k as int] == lines[k as int]@);
        match scan_line(ctx, st, k + 1, lines[k].as_str()) {
            Some(s) => {
                st = s;
            },
            None => {
                return None;
            },
        }
        k = k + 1;
    }
    Some(st)
}

/// The lines on which exposures were recorded.
fn exposure_line_numbers(exposures: &Vec<ExposureDetail>) -> (r: Vec<usize>)
    ensures
        r@ == exposure_records(exposures@).map_values(|e: ExposureRecord| e.line),
{
    let mut r: Vec<usize> = Vec::new();
    let n = exposures.len();
    for i in 0..n
        invariant
            n == exposures@.len(),
            r@ == exposure_records(exposures@).take(i as int).map_values(|e: ExposureRecord| e.line),
    {
        r.push(exposures[i].line);
        assert(exposure_records(exposures@).take(i + 1) =~= exposure_records(exposures@).take(i as int).push(exposures@[i as int]@));
        assert(r@ =~= exposure_records(exposures@).take(i + 1).map_values(|e: ExposureRecord| e.line));
    }
    assert(exposure_records(exposures@).take(n as int) =~= exposure_records(exposures@));
    r
}

/// The context of the scan of the file at `path`.
fn make_context<'a>(path: &str, patterns: &'a AnalysisPatterns, high_entropy_values: &'a Vec<String>) -> (ctx: ScanCtx<'a>)
    ensures
        ctx.wf(),
        ctx.spec() == scan_context(path@, patterns.token_pattern(), patterns.exposure_pattern(), high_entropy_values.deep_view()),
{
    let risk = get_file_risk_level(path);
    let is_env = match file_name_of(path) {
        Some(name) => {
            let lower = to_lowercase(name.as_str());
            str_contains(lower.as_str(), ".env")
        },
        None => false,
    };
    let value = match compile_regex(r#"[=:]\s*["']([^"']+)["']|[=:]\s*([a-zA-Z0-9_\-./+]{8,})"#) {
        Ok(re) => Some(re),
        Err(_) => None,
    };
    let mut env_context = patterns.token_text().to_owned();
    env_context.append("=***");
    let mut config_context = "Hardcoded in ".to_owned();
    config_context.append(risk_level_name(risk));
    ScanCtx {
        patterns,
        value,
        is_env,
        risk,
        high: high_entropy_values,
        env_context,
        config_context,
    }
}

/// The value that a line offers for the entropy check: on a line of an
/// environment or configuration file that is not a comment and holds the
/// token, the value assigned there.
pub open spec fn line_candidate(ctx: ScanSpec, line: Seq<char>) -> Seq<Seq<char>> {
    if !is_comment_line(trim(line)) && regex_match_count(ctx.token, line) > 0 && (ctx.is_env
        || ctx.risk.severity() >= RiskLevel::Medium.severity()) {
        match captured_value(ctx, line) {
            Some(v) => seq![v],
            None => Seq::empty(),
        }
    } else {
        Seq::empty()
    }
}

/// The values that `lines[k..]` offer for the entropy check, in order.
pub open spec fn candidates_from(ctx: ScanSpec, lines: Seq<Seq<char>>, k: int) -> Seq<Seq<char>>
    decreases lines.len() - k,
{
    if k < 0 || k >= lines.len() {
        Seq::empty()
    } else {
        line_candidate(ctx, lines[k]) + candidates_from(ctx, lines, k + 1)
    }
}

/// The values of a file that the scan may test for high entropy, in order.
pub open spec fn entropy_candidates_of(
    path: Seq<char>,
    content: Seq<char>,
    token: Seq<char>,
    exposure: Seq<char>,
) -> Seq<Seq<char>> {
    candidates_from(scan_context(path, token, exposure, Seq::empty()), lines_of(content), 0)
}

/// The values of a file that the scan may test for high entropy: the caller
/// computes the entropy of each and passes those above the threshold to
/// [`try_analyze_file`].
pub fn entropy_candidates(path: &str, content: &str, patterns: &AnalysisPatterns) -> (r: Vec<String>)
    ensures
        r.deep_view() == entropy_candidates_of(path@, content@, patterns.token_pattern(), patterns.exposure_pattern()),
{
    let none: Vec<String> = Vec::new();
    let ctx = make_context(path, patterns, &none);
    assert(none.deep_view() =~= Seq::<Seq<char>>::empty());
    let lines = text_lines(content);
    let mut out: Vec<String> = Vec::new();
    let n = lines.len();
    let ghost all = candidates_from(ctx.spec(), lines.deep_view(), 0);
    for k in 0..n
        invariant
            n == lines@.len(),
            all == candidates_from(ctx.spec(), lines.deep_view(), 0),
            out.deep_view() + candidates_from(ctx.spec(), lines.deep_view(), k as int) == all,
    {
        let line = lines[k].as_str();
        assert(lines.deep_view()[k as int] == line@);
        let ghost rest = candidates_from(ctx.spec(), lines.deep_view(), k + 1);
        let t = trimmed_line(line);
        if !comment_line(t.as_str()) && count_matches(&ctx.patterns.token, line) > 0 && (ctx.is_env || ctx.risk.at_least(RiskLevel::Medium)) {
            match captured(&ctx, line) {
                Some(v) => {
                    let ghost before = out.deep_view();
                    out.push(v);
                    assert(out.deep_view() =~= before.push(v@));
                    assert(before + (seq![v@] + rest) =~= before.push(v@) + rest);
                },
                None => {
                    assert(out.deep_view() + (Seq::<Seq<char>>::empty() + rest) =~= out.deep_view() + rest);
                },
            }
        } else {
            assert(out.deep_view() + (Seq::<Seq<char>>::empty() + rest) =~= out.deep_view() + rest);
        }
    }
    assert(out.deep_view() + Seq::<Seq<char>>::empty() =~= out.deep_view());
    out
}

/// Analyzes the text of one file: counts the token's occurrences outside
/// comment lines, notes the lines they are on, and records where the value
/// is exposed. `None` where the analysis cannot complete on the text (a count that
/// overflows, or a cut through a character when redacting or truncating).
pub fn try_analyze_file(
    path: &str,
    content: &str,
    patterns: &AnalysisPatterns,
    high_entropy_values: &Vec<String>,
) -> (r: Option<FileAnalysis>)
    ensures
        r is None <==> file_analysis_of(path@, content@, patterns.token_pattern(), patterns.exposure_pattern(), high_entropy_values.deep_view()) is None,
        r matches Some(fa) ==> file_analysis_of(path@, content@, patterns.token_pattern(), patterns.exposure_pattern(), high_entropy_values.deep_view()) == Some(fa@),
{
    let ctx = make_context(path, patterns, high_entropy_values);
    let risk = ctx.risk;
    let lines = text_lines(content);
    let st = match scan_lines(&ctx, &lines) {
        Some(st) => st,
        None => {
            return None;
        },
    };
    let ghost sv = st@;
    let m = risk.multiplier();
    let score = match st.calls.checked_mul(m) {
        Some(x) => x,
        None => {
            return None;
        },
    };
    let exposure_lines = exposure_line_numbers(&st.exposures);
    let has_exposure = st.exposures.len() > 0;
    let fa = FileAnalysis {
        path: path.to_owned(),
        call_count: st.calls,
        has_exposure,
        risk_level: risk,
        risk_score: score,
        exposures: st.exposures,
        exposure_lines,
        occurrence_lines: st.occurrences,
    };
    Some(fa)
}

/// Analyzes the text of one file, on a text where the analysis
/// completes; see [`try_analyze_file`].
pub fn analyze_file(
    path: &str,
    content: &str,
    patterns: &AnalysisPatterns,
    high_entropy_values: &Vec<String>,
) -> (fa: FileAnalysis)
    requires
        file_analysis_of(path@, content@, patterns.token_pattern(), patterns.exposure_pattern(), high_entropy_values.deep_view()) is Some,
    ensures
        file_analysis_of(path@, content@, patterns.token_pattern(), patterns.exposure_pattern(), high_entropy_values.deep_view()) == Some(fa@),
{
    match try_analyze_file(path, content, patterns, high_entropy_values) {
        Some(fa) => fa,
        None => {
            proof {
                assert(false);
            }
            FileAnalysis {
                path: String::new(),
                call_count: 0,
                has_exposure: false,
                risk_level: RiskLevel::Low,
                risk_score: 0,
                exposures: Vec::new(),
                exposure_lines: Vec::new(),
                occurrence_lines: Vec::new(),
            }
        },
    }
}

} // verus!
