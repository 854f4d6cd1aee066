use token_analyzer::{
    AnalysisReport, AnalyzerConfig, FileAnalysis, SourceFile, TokenSecurityAnalyzer, WalkEntry,
};

const ROOT: &str = "/work/project";

fn dir_entry(path: &str) -> SourceFile {
    SourceFile {
        entry: WalkEntry { path: path.to_string(), is_dir: true, size: Some(4096) },
        content: None,
    }
}

fn file_entry(path: &str, content: &str) -> SourceFile {
    SourceFile {
        entry: WalkEntry { path: path.to_string(), is_dir: false, size: Some(content.len() as u64) },
        content: Some(content.to_string()),
    }
}

/// The files of the test project, as the directory walk yields
/// them.
fn setup_test_dir() -> Vec<SourceFile> {
    vec![
        dir_entry(ROOT),
        file_entry(
            "/work/project/config.py",
            r#"
import os
API_KEY = os.getenv("API_KEY")
db_url = f"postgres://{API_KEY}@localhost/db"
"#,
        ),
        file_entry(
            "/work/project/main.js",
            r#"
const API_KEY = process.env.API_KEY;
console.log("API Key:", API_KEY);
fetch(url, { headers: { "Authorization": API_KEY } });
"#,
        ),
        file_entry(
            "/work/project/safe.rs",
            r#"
let api_key = std::env::var("API_KEY")?;
client.set_header("Authorization", &api_key);
"#,
        ),
        file_entry(
            "/work/project/debug.py",
            r#"
import logging
logger = logging.getLogger(__name__)
logger.debug(f"Using API_KEY: {API_KEY}")
print(f"Debug: API_KEY = {API_KEY}")
"#,
        ),
        dir_entry("/work/project/src"),
        file_entry(
            "/work/project/src/api.ts",
            r#"
export const API_KEY = process.env.API_KEY;
export function getHeaders() {
    return { "X-API-Key": API_KEY };
}
"#,
        ),
    ]
}

fn run(analyzer: &TokenSecurityAnalyzer, token: &str, sources: &Vec<SourceFile>) -> AnalysisReport {
    let none: Vec<String> = Vec::new();
    analyzer.analyze(token, ROOT, true, sources, &none).unwrap()
}

fn file_name(f: &FileAnalysis) -> String {
    f.path.rsplit('/').next().unwrap().to_string()
}

#[test]
fn test_analyzer_finds_token_occurrences() {
    let dir = setup_test_dir();
    let analyzer = TokenSecurityAnalyzer::default_analyzer();

    let report = run(&analyzer, "API_KEY", &dir);

    assert!(report.total_calls > 0, "Should find token occurrences");
    assert!(!report.files.is_empty(), "Should have files with matches");
}

#[test]
fn test_analyzer_detects_exposure() {
    let dir = setup_test_dir();
    let analyzer = TokenSecurityAnalyzer::default_analyzer();

    let report = run(&analyzer, "API_KEY", &dir);

    assert!(report.exposure_count > 0, "Should detect exposure");
    assert!(report.has_security_issues(), "Should have security issues");

    let exposed = report.exposed_files();
    let exposed_paths: Vec<String> = exposed.iter().map(|f| file_name(f)).collect();

    assert!(
        exposed_paths.iter().any(|p| p == "main.js"),
        "main.js should be exposed (console.log)"
    );
    assert!(
        exposed_paths.iter().any(|p| p == "debug.py"),
        "debug.py should be exposed (logger.debug, print)"
    );
}

#[test]
fn test_analyzer_respects_word_boundaries() {
    let dir = vec![
        dir_entry(ROOT),
        file_entry(
            "/work/project/test.py",
            r#"
API_KEY_NAME = "test"
MY_API_KEY = "value"
API_KEY = "secret"
"#,
        ),
    ];

    let analyzer = TokenSecurityAnalyzer::default_analyzer();
    let report = run(&analyzer, "API_KEY", &dir);

    assert_eq!(report.total_calls, 1, "Should match exact token only");
}

#[test]
fn test_analyzer_config_fast() {
    let config = AnalyzerConfig::fast();
    assert_eq!(config.max_files, 1_000);
    assert_eq!(config.timeout_ms, 5_000);
}

#[test]
fn test_analyzer_config_thorough() {
    let config = AnalyzerConfig::thorough();
    assert_eq!(config.max_files, 0);
    assert!(config.include_hidden);
}

#[test]
fn test_analyzer_empty_token() {
    let dir = vec![dir_entry(ROOT)];
    let analyzer = TokenSecurityAnalyzer::default_analyzer();
    let none: Vec<String> = Vec::new();

    let result = analyzer.analyze("", ROOT, true, &dir, &none);
    assert!(result.is_err(), "Should reject empty token");
}

#[test]
fn test_analyzer_nonexistent_dir() {
    let analyzer = TokenSecurityAnalyzer::default_analyzer();
    let none: Vec<String> = Vec::new();
    let nothing: Vec<SourceFile> = Vec::new();

    let result = analyzer.analyze("TOKEN", "/nonexistent/path", false, &nothing, &none);
    assert!(result.is_err(), "Should reject nonexistent directory");
}

#[test]
fn test_analyzer_report_sorting() {
    let dir = setup_test_dir();
    let analyzer = TokenSecurityAnalyzer::default_analyzer();
    let report = run(&analyzer, "API_KEY", &dir);

    let sorted = report.files_sorted();

    if !sorted.is_empty() && sorted[0].has_exposure {
        assert!(
            sorted.iter().take_while(|f| f.has_exposure).count() > 0,
            "Exposed files should come first"
        );
    }
}

#[test]
fn test_analyzer_ignores_node_modules() {
    let dir = vec![
        dir_entry(ROOT),
        dir_entry("/work/project/node_modules"),
        file_entry("/work/project/node_modules/test.js", "const API_KEY = 'test';"),
        file_entry("/work/project/main.js", "const API_KEY = 'test';"),
    ];

    let analyzer = TokenSecurityAnalyzer::default_analyzer();
    let report = run(&analyzer, "API_KEY", &dir);

    assert_eq!(report.files.len(), 1);
    assert!(file_name(&report.files[0]) == "main.js");
}

#[test]
fn test_analyzer_performance_metrics() {
    let dir = setup_test_dir();
    let analyzer = TokenSecurityAnalyzer::default_analyzer();

    let report = run(&analyzer, "API_KEY", &dir);

    assert!(
        report.duration_nanos / 1_000_000 < 5000,
        "Analysis should complete quickly (< 5s)"
    );
    assert!(report.files_scanned > 0, "Should report files scanned");
}

#[test]
fn test_analyzer_multiple_occurrences_per_line() {
    let dir = vec![
        dir_entry(ROOT),
        file_entry("/work/project/test.py", "x = API_KEY + API_KEY + API_KEY\n"),
    ];

    let analyzer = TokenSecurityAnalyzer::default_analyzer();
    let report = run(&analyzer, "API_KEY", &dir);

    assert_eq!(
        report.total_calls, 3,
        "Should count all occurrences on same line"
    );
    assert_eq!(
        report.files[0].occurrence_lines.len(),
        1,
        "Should only have 1 line"
    );
}
