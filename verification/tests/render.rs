use token_analyzer::cli::shorten_path;
use token_analyzer::render::{decimal_text, report_lines};
use token_analyzer::report::{AnalysisReport, ExposureDetail, ExposureType, FileAnalysis};
use token_analyzer::risk::{risk_icon, RiskLevel};
use token_analyzer::TokenSecurityAnalyzer;

/// The lines that the report printer of the command-line tool writes.
fn printed_lines(report: &AnalysisReport, duration: &str) -> Vec<String> {
    let mut out: Vec<String> = Vec::new();
    out.push(String::new());
    out.push("╭─────────────────────────────────────────────────────────────╮".to_string());
    out.push("│  🔐 Token Security Analysis Report                          │".to_string());
    out.push("╰─────────────────────────────────────────────────────────────╯".to_string());
    out.push(String::new());
    out.push(format!("  Token:     {}", report.token_name));
    out.push(format!("  Directory: {}", report.search_dir));
    out.push(format!("  Duration:  {}", duration));
    out.push(format!("  Files:     {} scanned", report.files_scanned));
    if report.truncated {
        out.push("  ⚠️  Analysis was truncated (limit reached)".to_string());
    }
    out.push(String::new());
    if report.total_calls == 0 {
        out.push(format!("  ✅ No occurrences of '{}' found.", report.token_name));
        return out;
    }
    out.push("╭─────────────────────────────────────────────────────────────╮".to_string());
    out.push("│  📊 Summary                                                  │".to_string());
    out.push("╰─────────────────────────────────────────────────────────────╯".to_string());
    out.push(String::new());
    out.push(format!("  Total calls:  {} in {} files", report.total_calls, report.files.len()));
    out.push(format!(
        "  Risk score:   {} (critical files: {})",
        report.total_risk_score, report.critical_files
    ));
    if report.exposure_count > 0 {
        out.push(format!(
            "  ⚠️  EXPOSED:   {} files with potential plaintext exposure!",
            report.exposure_count
        ));
    } else {
        out.push("  ✅ Secure:    No plaintext exposure detected".to_string());
    }
    out.push(String::new());
    out.push("╭─────────────────────────────────────────────────────────────╮".to_string());
    out.push("│  📁 Files                                                    │".to_string());
    out.push("╰─────────────────────────────────────────────────────────────╯".to_string());
    out.push(String::new());
    for file in report.files_sorted() {
        let risk = risk_icon(&file.risk_level);
        let exposure_icon = if file.has_exposure { "⚠️ " } else { "   " };
        let display_path = shorten_path(&file.path, 45);
        let exposure_info = if file.has_exposure {
            let types: Vec<String> = file
                .exposures
                .iter()
                .map(|e| format!("L{}: {}", e.line, e.exposure_type.describe()))
                .collect();
            format!(" [{}]", types.join(", "))
        } else {
            String::new()
        };
        out.push(format!(
            "{} {} {} ({} calls, score: {}){}",
            risk, exposure_icon, display_path, file.call_count, file.risk_score, exposure_info
        ));
    }
    out.push(String::new());
    if report.has_security_issues() {
        out.push("╭─────────────────────────────────────────────────────────────╮".to_string());
        out.push("│  🛡️  Security Recommendations                               │".to_string());
        out.push("╰─────────────────────────────────────────────────────────────╯".to_string());
        out.push(String::new());
        out.push("  The following files expose token values:".to_string());
        out.push(String::new());
        for file in report.exposed_files() {
            out.push(format!("  {} → {}", risk_icon(&file.risk_level), file.path));
            for exposure in &file.exposures {
                out.push(format!(
                    "      Line {}: {} - {}",
                    exposure.line,
                    exposure.exposure_type.describe(),
                    exposure.context
                ));
            }
        }
        out.push(String::new());
        out.push("  💡 Tips:".to_string());
        out.push("     • Never log or print secret values directly".to_string());
        out.push("     • Use '[REDACTED]' or mask tokens in debug output".to_string());
        out.push("     • Never commit .env files or hardcoded secrets".to_string());
        out.push("     • Consider using lazy-locker for secure secret management".to_string());
        out.push("       https://github.com/WillIsback/lazy-locker".to_string());
        out.push(String::new());
    }
    out
}

fn detail(line: usize, kind: ExposureType, context: &str) -> ExposureDetail {
    ExposureDetail { line, exposure_type: kind, context: context.to_string() }
}

fn finding(path: &str, calls: usize, level: RiskLevel, exposures: Vec<ExposureDetail>) -> FileAnalysis {
    let lines = exposures.iter().map(|e| e.line).collect();
    FileAnalysis {
        path: path.to_string(),
        call_count: calls,
        has_exposure: !exposures.is_empty(),
        risk_level: level,
        risk_score: calls * level.multiplier(),
        exposures,
        exposure_lines: lines,
        occurrence_lines: Vec::new(),
    }
}

#[test]
fn report_lines_match_the_printed_report() {
    let a = TokenSecurityAnalyzer::default_analyzer();
    let results = vec![
        finding("/p/safe_code.py", 3, RiskLevel::Low, vec![]),
        finding(
            "/p/.env",
            1,
            RiskLevel::Critical,
            vec![detail(5, ExposureType::KnownTokenPrefix("OpenAI API Key".to_string()), "sk-p...cdef")],
        ),
        finding(
            "/p/a/very/long/directory/name/that/keeps/going/dangerous_code.js",
            3,
            RiskLevel::Low,
            vec![
                detail(2, ExposureType::HardcodedValue, "const API_KEY = \"x\";"),
                detail(5, ExposureType::LoggedOutput, "console.log(API_KEY)"),
            ],
        ),
        finding("/p/config.yml", 1, RiskLevel::High, vec![]),
    ];
    let report = a.build_report("API_KEY", "/p", 5, results, 7_630_000);
    let lines = report_lines(&report, "7.63ms").unwrap();
    assert_eq!(lines, printed_lines(&report, "7.63ms"));
    assert!(lines.iter().any(|l| l.contains("...ry/name/that/keeps/going/dangerous_code.js")));
}

#[test]
fn report_lines_without_occurrences() {
    let a = TokenSecurityAnalyzer::default_analyzer();
    let report = a.timeout_report("API_KEY", "/p", 1);
    let lines = report_lines(&report, "1ns").unwrap();
    assert_eq!(lines, printed_lines(&report, "1ns"));
    assert_eq!(lines.last().unwrap(), "  ✅ No occurrences of 'API_KEY' found.");
}

#[test]
fn report_lines_without_exposure() {
    let a = TokenSecurityAnalyzer::default_analyzer();
    let report = a.build_report("T", "/p", 1, vec![finding("/p/a.rs", 2, RiskLevel::Low, vec![])], 3);
    let lines = report_lines(&report, "3ns").unwrap();
    assert_eq!(lines, printed_lines(&report, "3ns"));
    assert!(lines.contains(&"  ✅ Secure:    No plaintext exposure detected".to_string()));
}

#[test]
fn report_lines_refuse_a_path_cut_through_a_character() {
    let a = TokenSecurityAnalyzer::default_analyzer();
    let path = format!("/p/{}é{}", "a".repeat(4), "b".repeat(41));
    let report = a.build_report("T", "/p", 1, vec![finding(&path, 1, RiskLevel::Low, vec![])], 0);
    assert!(report_lines(&report, "0ns").is_none());
}

#[test]
fn decimal_text_matches_display() {
    for n in [0usize, 7, 10, 99, 100, 12345, usize::MAX] {
        assert_eq!(decimal_text(n), n.to_string());
    }
}
