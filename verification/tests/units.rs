use token_analyzer::analyzer::{AnalyzerError, SourceFile, TokenSecurityAnalyzer, WalkAction, WalkEntry};
use token_analyzer::cli::{parse_args, parse_decimal, shorten_path, try_shorten_path, CliCommand};
use token_analyzer::config::AnalyzerConfig;
use token_analyzer::report::{ExposureType, FileAnalysis};
use token_analyzer::risk::{get_file_risk_level, risk_icon, risk_level_name, RiskLevel};
use token_analyzer::scan::{
    detect_known_prefix, entropy_candidates, is_high_entropy_secret, redact_value,
    try_analyze_file, truncate_line,
};
use token_analyzer::scan::trimmed_line;
use token_analyzer::text::{str_contains, str_starts_with, text_lines};

fn patterns(token: &str) -> token_analyzer::AnalysisPatterns {
    TokenSecurityAnalyzer::default_analyzer().build_patterns(token).ok().unwrap()
}

fn analyze_text(path: &str, content: &str, high: &Vec<String>) -> FileAnalysis {
    try_analyze_file(path, content, &patterns("API_KEY"), high).unwrap()
}

fn no_values() -> Vec<String> {
    Vec::new()
}

fn entry(path: &str, is_dir: bool, size: Option<u64>) -> WalkEntry {
    WalkEntry { path: path.to_string(), is_dir, size }
}

// --- text -------------------------------------------------------------------

#[test]
fn lines_follow_str_lines() {
    let text = "foo\r\nbar\n\nbaz\r";
    let ours = text_lines(text);
    let std_lines: Vec<String> = text.lines().map(|l| l.to_string()).collect();
    assert_eq!(ours, std_lines);
    assert_eq!(ours, vec!["foo", "bar", "", "baz\r"]);
    assert!(text_lines("").is_empty());
    assert_eq!(text_lines("a\n"), vec!["a"]);
    assert_eq!(text_lines("\n"), vec![""]);
}

#[test]
fn trimming_follows_str_trim() {
    for s in ["  a b \t", "\u{3000}x\u{2028}", "", "   ", "no-space"] {
        assert_eq!(trimmed_line(s), s.trim());
    }
}

#[test]
fn contains_and_starts_with() {
    assert!(str_contains("console.log(x)", "log"));
    assert!(!str_contains("consolelo", "log"));
    assert!(str_contains("abc", ""));
    assert!(str_starts_with("//x", "//"));
    assert!(!str_starts_with("/x", "//"));
}

// --- values -----------------------------------------------------------------

#[test]
fn redaction_keeps_four_bytes_each_side() {
    assert_eq!(redact_value("sk-demo-value-abcd"), Some("sk-d...abcd".to_string()));
    assert_eq!(redact_value("12345678"), Some("***".to_string()));
    assert_eq!(redact_value("short"), Some("***".to_string()));
    // a cut through a multi-byte character cannot be made: no redaction
    assert_eq!(redact_value("ééééééé"), Some("éé...éé".to_string()));
    assert_eq!(redact_value("aéééééé"), None);
}

#[test]
fn truncation_at_fifty_bytes() {
    let long = "x".repeat(60);
    assert_eq!(truncate_line(&format!("   {}   ", long)), Some(format!("{}...", "x".repeat(47))));
    assert_eq!(truncate_line("  short line  "), Some("short line".to_string()));
    let fifty = "y".repeat(50);
    assert_eq!(truncate_line(&fifty), Some(fifty.clone()));
    let accented = format!("{}é{}", "a".repeat(46), "b".repeat(10));
    assert_eq!(truncate_line(&accented), None);
}

#[test]
fn known_prefixes_first_match_wins() {
    assert_eq!(detect_known_prefix("ghp_abc"), Some("GitHub Personal Access Token"));
    assert_eq!(detect_known_prefix("sk-ant-api03"), Some("OpenAI API Key"));
    assert_eq!(detect_known_prefix("sk_live_123"), Some("Stripe Live Secret Key"));
    assert_eq!(detect_known_prefix("AKIAXXXX"), Some("AWS Access Key ID"));
    assert_eq!(detect_known_prefix("plainvalue"), None);
}

#[test]
fn high_entropy_needs_length_and_no_placeholder() {
    assert!(is_high_entropy_secret("a8F3kL9qZ2", true));
    assert!(!is_high_entropy_secret("a8F3kL9qZ2", false));
    assert!(!is_high_entropy_secret("a8F3kL9", true));
    assert!(!is_high_entropy_secret("my_EXAMPLE_key_123", true));
    assert!(!is_high_entropy_secret("PASSWORD", true));
    assert!(!is_high_entropy_secret("xxx-secret-value", true));
}

// --- risk -------------------------------------------------------------------

#[test]
fn risk_levels_from_paths() {
    assert_eq!(get_file_risk_level("/p/.env"), RiskLevel::Critical);
    assert_eq!(get_file_risk_level("/p/.ENV.local"), RiskLevel::Critical);
    assert_eq!(get_file_risk_level("/p/SECRETS.txt"), RiskLevel::Critical);
    assert_eq!(get_file_risk_level("/p/server.pem"), RiskLevel::Critical);
    assert_eq!(get_file_risk_level("/p/docker-compose.yml"), RiskLevel::High);
    assert_eq!(get_file_risk_level("/p/k8s/deploy.py"), RiskLevel::High);
    assert_eq!(get_file_risk_level("/p/app/settings.json"), RiskLevel::High);
    assert_eq!(get_file_risk_level("/p/app.TOML"), RiskLevel::Medium);
    assert_eq!(get_file_risk_level("/p/main.rs"), RiskLevel::Low);
    assert_eq!(get_file_risk_level("/p/Makefile"), RiskLevel::Low);
}

#[test]
fn risk_multipliers_names_and_icons() {
    assert_eq!(RiskLevel::Low.multiplier(), 1);
    assert_eq!(RiskLevel::Medium.multiplier(), 2);
    assert_eq!(RiskLevel::High.multiplier(), 3);
    assert_eq!(RiskLevel::Critical.multiplier(), 4);
    assert_eq!(risk_level_name(RiskLevel::High), "sensitive config");
    assert_eq!(risk_icon(&RiskLevel::Critical), "🔴");
    assert!(RiskLevel::Critical > RiskLevel::High && RiskLevel::Medium > RiskLevel::Low);
}

// --- file analysis ----------------------------------------------------------

#[test]
fn env_file_with_known_prefix() {
    let fa = analyze_text("/p/.env", "# comment API_KEY\nAPI_KEY=sk-demo-value-for-tests\nOTHER=1\n", &no_values());
    assert_eq!(fa.call_count, 1);
    assert_eq!(fa.risk_level, RiskLevel::Critical);
    assert_eq!(fa.risk_score, 4);
    assert!(fa.has_exposure);
    assert_eq!(fa.occurrence_lines, vec![2]);
    assert_eq!(fa.exposure_lines, vec![2]);
    assert_eq!(fa.exposures[0].exposure_type, ExposureType::KnownTokenPrefix("OpenAI API Key".to_string()));
    assert_eq!(fa.exposures[0].context, "sk-d...ests");
}

#[test]
fn env_file_plain_value() {
    let fa = analyze_text("/p/.env", "API_KEY=changeme\n", &no_values());
    assert_eq!(fa.exposures[0].exposure_type, ExposureType::EnvironmentFile);
    assert_eq!(fa.exposures[0].context, r"\bAPI_KEY\b=***");
}

#[test]
fn high_entropy_value_in_config_file() {
    let text = "services:\n  API_KEY: \"Zq8LmN3vT7xW2pR9\"\n";
    let path = "/p/docker-compose.yml";
    let pats = patterns("API_KEY");
    let candidates = entropy_candidates(path, text, &pats);
    assert_eq!(candidates, vec!["Zq8LmN3vT7xW2pR9".to_string()]);
    let high = analyze_text(path, text, &candidates);
    assert_eq!(high.exposures.len(), 1);
    assert_eq!(high.exposures[0].exposure_type, ExposureType::HighEntropy);
    assert_eq!(high.exposures[0].context, "Zq8L...2pR9");
    let low = analyze_text(path, text, &no_values());
    assert_eq!(low.exposures[0].exposure_type, ExposureType::ConfigFile);
    assert_eq!(low.exposures[0].context, "Hardcoded in sensitive config");
    assert_eq!(low.risk_score, 3);
}

#[test]
fn environment_reference_in_config_is_safe() {
    let fa = analyze_text("/p/config.yml", "API_KEY: \"$API_KEY_FROM_ENV\"\n", &no_values());
    assert_eq!(fa.call_count, 1);
    assert!(!fa.has_exposure);
}

#[test]
fn logged_and_hardcoded_lines() {
    let fa = analyze_text(
        "/p/app.js",
        "const API_KEY = \"abc123\";\nconsole.log(API_KEY);\nuse(API_KEY);\n",
        &no_values(),
    );
    assert_eq!(fa.call_count, 3);
    assert_eq!(fa.occurrence_lines, vec![1, 2, 3]);
    assert_eq!(fa.exposure_lines, vec![1, 2]);
    assert_eq!(fa.exposures[0].exposure_type, ExposureType::HardcodedValue);
    assert_eq!(fa.exposures[0].context, "const API_KEY = \"abc123\";");
    assert_eq!(fa.exposures[1].exposure_type, ExposureType::LoggedOutput);
}

#[test]
fn safe_reads_are_not_flagged() {
    let fa = analyze_text(
        "/p/app.py",
        "key = os.environ.get(\"API_KEY\")\nkey2 = process.env.API_KEY\n",
        &no_values(),
    );
    assert_eq!(fa.call_count, 2);
    assert!(!fa.has_exposure);
}

#[test]
fn comments_are_not_counted() {
    let fa = analyze_text(
        "/p/app.py",
        "# API_KEY\n  // API_KEY\n/* API_KEY */\n * API_KEY\nx = 1\n",
        &no_values(),
    );
    assert_eq!(fa.call_count, 0);
    assert!(fa.occurrence_lines.is_empty());
}

#[test]
fn long_exposed_line_is_truncated() {
    let line = format!("print(\"{}\", API_KEY)", "z".repeat(60));
    let fa = analyze_text("/p/app.py", &line, &no_values());
    assert_eq!(fa.exposures[0].exposure_type, ExposureType::LoggedOutput);
    assert_eq!(fa.exposures[0].context.len(), 50);
    assert!(fa.exposures[0].context.ends_with("..."));
}

#[test]
fn panicking_inputs_give_none() {
    let line = format!("print(\"{}é{}\", API_KEY)", "a".repeat(39), "b".repeat(20));
    assert!(try_analyze_file("/p/app.py", &line, &patterns("API_KEY"), &no_values()).is_none());
}

// --- patterns ---------------------------------------------------------------

#[test]
fn token_is_escaped_in_patterns() {
    let p = patterns("A.B");
    assert_eq!(p.token_text(), r"\bA\.B\b");
    assert!(p.exposure_text().starts_with(r"\bA\.B\b\s*=\s*"));
    assert_eq!(p.exposure_text().matches(r"A\.B").count(), 10);
    let fa = try_analyze_file("/p/a.py", "AxB = 1\nA.B = 2\n", &p, &no_values()).unwrap();
    assert_eq!(fa.call_count, 1);
    assert_eq!(fa.occurrence_lines, vec![2]);
}

// --- choosing files ---------------------------------------------------------

#[test]
fn walk_decisions() {
    let a = TokenSecurityAnalyzer::default_analyzer();
    assert_eq!(a.walk_step(0, 0, Some(&entry("/p/a.py", false, Some(10)))), WalkAction::Take);
    assert_eq!(a.walk_step(0, 0, Some(&entry("/p/a.PY", false, Some(10)))), WalkAction::Take);
    assert_eq!(a.walk_step(0, 0, Some(&entry("/p/a.exe", false, Some(10)))), WalkAction::Skip);
    assert_eq!(a.walk_step(0, 0, Some(&entry("/p/.env", false, Some(10)))), WalkAction::Take);
    assert_eq!(a.walk_step(0, 0, Some(&entry("/p/id_rsa", false, None))), WalkAction::Take);
    assert_eq!(a.walk_step(0, 0, Some(&entry("/p/Makefile", false, Some(1)))), WalkAction::Skip);
    assert_eq!(a.walk_step(0, 0, Some(&entry("/p/src", true, None))), WalkAction::Skip);
    assert_eq!(a.walk_step(0, 0, Some(&entry("/p/target/x.rs", false, Some(1)))), WalkAction::Skip);
    assert_eq!(a.walk_step(0, 0, Some(&entry("/p/big.py", false, Some(20 * 1024 * 1024)))), WalkAction::Skip);
    assert_eq!(a.walk_step(0, 0, None), WalkAction::Skip);
    assert_eq!(a.walk_step(10_000, 0, Some(&entry("/p/a.py", false, Some(10)))), WalkAction::Stop);
    assert_eq!(a.walk_step(0, 30_000, Some(&entry("/p/a.py", false, Some(10)))), WalkAction::Stop);
    assert_eq!(a.walk_step(0, 29_999, Some(&entry("/p/a.py", false, Some(10)))), WalkAction::Take);
    assert!(a.is_ignored_dir("/p/node_modules/x/y.js"));
    assert!(!a.is_ignored_dir("/p/node_modules_x/y.js"));
}

#[test]
fn configured_extensions_replace_defaults() {
    let mut c = AnalyzerConfig::default();
    c.extensions = vec!["exe".to_string()];
    let a = TokenSecurityAnalyzer::new(c);
    assert_eq!(a.walk_step(0, 0, Some(&entry("/p/a.exe", false, Some(10)))), WalkAction::Take);
    assert_eq!(a.walk_step(0, 0, Some(&entry("/p/a.py", false, Some(10)))), WalkAction::Skip);
}

#[test]
fn file_limit_truncates() {
    let mut c = AnalyzerConfig::default();
    c.max_files = 1;
    let a = TokenSecurityAnalyzer::new(c);
    let sources: Vec<SourceFile> = ["a", "b", "c"]
        .iter()
        .map(|n| SourceFile {
            entry: entry(&format!("/p/{}.py", n), false, Some(20)),
            content: Some("x = API_KEY\n".to_string()),
        })
        .collect();
    let report = a.analyze("API_KEY", "/p", true, &sources, &no_values()).unwrap();
    assert_eq!(report.files_scanned, 1);
    assert!(report.truncated);
    assert_eq!(report.total_calls, 1);
}

#[test]
fn unreadable_and_empty_files_are_left_out() {
    let a = TokenSecurityAnalyzer::default_analyzer();
    let sources = vec![
        SourceFile { entry: entry("/p/a.py", false, Some(20)), content: None },
        SourceFile { entry: entry("/p/b.py", false, Some(20)), content: Some("nothing here\n".to_string()) },
        SourceFile { entry: entry("/p/c.py", false, Some(20)), content: Some("x = API_KEY\n".to_string()) },
    ];
    let report = a.analyze("API_KEY", "/p", true, &sources, &no_values()).unwrap();
    assert_eq!(report.files_scanned, 3);
    assert_eq!(report.files.len(), 1);
    assert!(report.files.iter().all(|f| f.call_count > 0));
    assert!(!report.truncated);
    assert!(report.errors.is_empty());
}

// --- reports ----------------------------------------------------------------

fn finding(path: &str, calls: usize, exposed: bool, level: RiskLevel) -> FileAnalysis {
    FileAnalysis {
        path: path.to_string(),
        call_count: calls,
        has_exposure: exposed,
        risk_level: level,
        risk_score: calls * level.multiplier(),
        exposures: Vec::new(),
        exposure_lines: Vec::new(),
        occurrence_lines: Vec::new(),
    }
}

#[test]
fn report_totals_and_orders() {
    let a = TokenSecurityAnalyzer::default_analyzer();
    let results = vec![
        finding("a", 3, false, RiskLevel::Low),
        finding("b", 1, true, RiskLevel::High),
        finding("c", 1, false, RiskLevel::High),
        finding("d", 2, true, RiskLevel::Critical),
        finding("e", 3, true, RiskLevel::Low),
    ];
    assert!(TokenSecurityAnalyzer::totals_fit(&results));
    let r = a.build_report("API_KEY", "/p", 7, results, 42);
    assert_eq!(r.total_calls, 10);
    assert_eq!(r.total_risk_score, 3 + 3 + 3 + 8 + 3);
    assert_eq!(r.exposure_count, 3);
    assert_eq!(r.critical_files, 1);
    assert_eq!(r.files_scanned, 7);
    assert_eq!(r.duration_nanos, 42);
    assert!(!r.truncated);
    assert!(r.has_security_issues());
    assert!(r.has_critical_issues());
    let sorted: Vec<&str> = r.files_sorted().iter().map(|f| f.path.as_str()).collect();
    assert_eq!(sorted, vec!["d", "e", "b", "a", "c"]);
    assert_eq!(r.files_sorted_order(), vec![3, 4, 1, 0, 2]);
    let exposed: Vec<&str> = r.exposed_files().iter().map(|f| f.path.as_str()).collect();
    assert_eq!(exposed, vec!["b", "d", "e"]);
    let high: Vec<&str> = r.high_risk_files().iter().map(|f| f.path.as_str()).collect();
    assert_eq!(high, vec!["b", "c", "d"]);
}

#[test]
fn totals_that_overflow_are_refused() {
    let results = vec![
        finding("a", usize::MAX / 2, false, RiskLevel::Low),
        finding("b", usize::MAX / 2 + 2, false, RiskLevel::Low),
    ];
    assert!(!TokenSecurityAnalyzer::totals_fit(&results));
}

#[test]
fn no_critical_issue_without_exposure() {
    let a = TokenSecurityAnalyzer::default_analyzer();
    let r = a.build_report("T", "/p", 1, vec![finding("a", 1, false, RiskLevel::Critical)], 0);
    assert!(!r.has_security_issues());
    assert!(!r.has_critical_issues());
    assert_eq!(r.critical_files, 1);
}

#[test]
fn timeout_report_shape() {
    let a = TokenSecurityAnalyzer::default_analyzer();
    let r = a.timeout_report("API_KEY", "/p", 5);
    assert!(r.truncated);
    assert_eq!(r.errors, vec!["Analysis timed out".to_string()]);
    assert_eq!(r.files_scanned, 0);
    assert!(r.files.is_empty());
    assert!(!r.has_security_issues());
}

#[test]
fn request_errors_and_messages() {
    let a = TokenSecurityAnalyzer::default_analyzer();
    let e = a.check_request("", "/p", true).unwrap_err();
    assert_eq!(e.message(), "Token name cannot be empty");
    let e = a.check_request("T", "/nowhere", false).unwrap_err();
    assert_eq!(e.message(), "Search directory does not exist: /nowhere");
    assert!(a.check_request("T", "/p", true).is_ok());
    let e = AnalyzerError::TokenPattern("bad".to_string());
    assert_eq!(e.message(), "Failed to build token regex: bad");
}

#[test]
fn exposure_descriptions() {
    assert_eq!(ExposureType::HardcodedValue.describe(), "Hardcoded value");
    assert_eq!(ExposureType::LoggedOutput.describe(), "Logged/printed");
    assert_eq!(ExposureType::EnvironmentFile.describe(), "In .env file");
    assert_eq!(ExposureType::ConfigFile.describe(), "In config file");
    assert_eq!(ExposureType::HighEntropy.describe(), "High entropy (real secret)");
    assert_eq!(ExposureType::KnownTokenPrefix("X".to_string()).describe(), "Known prefix: X");
}

// --- command line -----------------------------------------------------------

fn args(list: &[&str]) -> Vec<String> {
    list.iter().map(|s| s.to_string()).collect()
}

#[test]
fn command_line_options() {
    match parse_args(&args(&["ta", "API_KEY", "./src", "--hidden", "--fast", "--timeout=100", "-j", "--bogus"])) {
        CliCommand::Analyze(o) => {
            assert_eq!(o.token_name, "API_KEY");
            assert_eq!(o.directory, Some("./src".to_string()));
            assert_eq!(o.config.max_files, 1_000);
            assert!(!o.config.include_hidden);
            assert_eq!(o.config.timeout_ms, 100);
            assert!(o.json);
            assert!(!o.verbose);
            assert_eq!(o.unknown_options, vec!["--bogus".to_string()]);
        },
        _ => panic!("expected an analysis"),
    }
    match parse_args(&args(&["ta", "API_KEY", "--thorough", "--max-files=abc", "--timeout=+7", "-v"])) {
        CliCommand::Analyze(o) => {
            assert_eq!(o.directory, None);
            assert_eq!(o.config.max_files, 10_000);
            assert!(o.config.include_hidden);
            assert_eq!(o.config.timeout_ms, 7);
            assert!(o.verbose);
        },
        _ => panic!("expected an analysis"),
    }
    assert!(matches!(parse_args(&args(&["ta"])), CliCommand::Usage));
    assert!(matches!(parse_args(&args(&["ta", "-h"])), CliCommand::Usage));
    assert!(matches!(parse_args(&args(&["ta", "--version"])), CliCommand::Version));
}

#[test]
fn decimal_parsing_follows_from_str() {
    for s in ["0", "42", "+42", "", "+", "-1", "4x", " 4", "18446744073709551615", "18446744073709551616"] {
        assert_eq!(parse_decimal(s, u64::MAX), s.parse::<u64>().ok(), "{}", s);
    }
    assert_eq!(parse_decimal("300", 255), None);
    assert_eq!(parse_decimal("255", 255), Some(255));
}

#[test]
fn paths_are_shortened_for_display() {
    assert_eq!(shorten_path("/short/path.rs", 45), "/short/path.rs");
    let long = format!("/very/{}/file.rs", "d".repeat(60));
    let s = shorten_path(&long, 45);
    assert_eq!(s.len(), 45);
    assert!(s.starts_with("...") && s.ends_with("/file.rs"));
    assert_eq!(try_shorten_path("abcdef", 2), None);
    assert_eq!(try_shorten_path(&format!("aaaé{}", "a".repeat(41)), 45), None);
}
