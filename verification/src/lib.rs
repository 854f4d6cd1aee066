//! Token security analysis: finds where a named secret (an API key, a token)
//! is used in a code base, how risky each file that uses it is, and whether
//! the value is exposed there: hardcoded, printed or logged, or held in an
//! environment or configuration file.
//!
//! The library works on text: the caller walks the directory and reads the
//! files, and hands over paths and contents. The modules:
//!
//! - [`text`]: lines, trimming, substrings and byte cuts of text;
//! - [`pattern`]: regular expressions through the `regex` crate;
//! - [`paths`]: file names, extensions and components of paths;
//! - [`risk`]: the risk level of a file from its path;
//! - [`config`]: the analysis configuration and its presets;
//! - [`scan`]: the analysis of one file's text;
//! - [`report`]: per-file findings, reports, and their orderings;
//! - [`analyzer`]: request checks, file choice, patterns, and reports;
//! - [`cli`]: the command line and path display;
//! - [`laws`]: properties that hold of every analysis.

pub mod text;
pub mod pattern;
pub mod paths;
pub mod risk;
pub mod config;
pub mod report;
pub mod scan;
pub mod analyzer;
pub mod cli;
pub mod render;
pub mod laws;

pub use analyzer::{AnalyzerError, SourceFile, TokenSecurityAnalyzer, WalkAction, WalkEntry};
pub use config::AnalyzerConfig;
pub use report::{AnalysisReport, ExposureDetail, ExposureType, FileAnalysis};
pub use risk::RiskLevel;
pub use scan::{known_token_prefix_table, AnalysisPatterns};
